//! The lock that keeps a second deposit or redemption from starting while
//! one is under way.

use crate::error::BasketError;
use crate::state::BasketState;
use vstd::prelude::*;

verus! {

/// The lock of a vault record, held.  Whoever has the value took the lock
/// and is to give it back through `exit`.
#[derive(Debug)]
pub struct ReentrancyGuard {
    held: (),
}

impl ReentrancyGuard {
    /// Takes the lock.
    ///
    /// Fails with `ReentrancyDetected`, and changes nothing, exactly when
    /// the lock is held already.
    pub fn enter(account: &mut BasketState) -> (result: Result<ReentrancyGuard, BasketError>)
        ensures
            old(account).reentrancy_guard ==> (result matches Err(error) && error
                == BasketError::ReentrancyDetected) && *final(account) == *old(account),
            !old(account).reentrancy_guard ==> result is Ok && final(account)@ == old(
                account,
            )@.with_lock(true),
    {
        if account.reentrancy_guard {
            return Err(BasketError::ReentrancyDetected);
        }
        account.reentrancy_guard = true;
        Ok(ReentrancyGuard { held: () })
    }

    /// Gives the lock back, whatever state it is in.
    pub fn exit(self, account: &mut BasketState)
        ensures
            final(account)@ == old(account)@.with_lock(false),
    {
        account.reentrancy_guard = false;
    }
}

/// Runs `f` under the lock of the vault record.
///
/// Where the lock is held already, `f` is not run and the result is
/// `ReentrancyDetected`.  Otherwise the lock is taken, `f` is run, the lock
/// is given back whatever `f` returned, and the result is that of `f`.
/// Either way the record is afterwards as it was before.
pub fn with_reentrancy_guard<T, F>(account: &mut BasketState, f: F) -> (result: Result<
    T,
    BasketError,
>) where F: FnOnce() -> Result<T, BasketError>
    requires
        !old(account).reentrancy_guard ==> f.requires(()),
    ensures
        final(account)@ == old(account)@,
        old(account).reentrancy_guard ==> (result matches Err(error) && error
            == BasketError::ReentrancyDetected),
        !old(account).reentrancy_guard ==> f.ensures((), result),
{
    let guard = match ReentrancyGuard::enter(account) {
        Err(error) => {
            return Err(error);
        },
        Ok(guard) => guard,
    };
    let result = f();
    guard.exit(account);
    result
}

} // verus!
