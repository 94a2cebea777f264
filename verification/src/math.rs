//! The constants of the protocol and its fixed-point arithmetic: the ratio
//! of a redemption and the quantity it withdraws from each constituent.

use crate::error::BasketError;
use vstd::prelude::*;

verus! {

/// Scale of the fixed-point redemption ratio: a ratio of `MAGNIFIER` is one.
pub const MAGNIFIER: u128 = 1_000_000_000;

/// Smallest deposit the vault accepts, in base units of the funding asset.
pub const MINIMUM_DEPOSIT: u64 = 10_000_000;

/// Largest number of constituents a vault can be created for.
pub const MAX_TOKENS: usize = 10;

/// Number of accounts the venue takes for one leg.
pub const ACCOUNTS_PER_LEG: usize = 12;

/// Largest sum the weights of a basket may reach, in percent.
pub const MAX_TOTAL_WEIGHT: u8 = 100;

/// The part of the outstanding shares that `amount` is, scaled by `MAGNIFIER`
/// and rounded down.  Meaningful for `total_supply > 0`.
pub open spec fn ratio_of(amount: nat, total_supply: nat) -> nat {
    (amount * MAGNIFIER as nat) / total_supply
}

/// The part of `held` that a ratio stands for, rounded down.
pub open spec fn share_of(held: nat, ratio: nat) -> nat {
    (held * ratio) / (MAGNIFIER as nat)
}

/// Redeeming no more than what is outstanding gives a ratio of at most one.
pub proof fn lemma_ratio_at_most_one(amount: nat, total_supply: nat)
    requires
        0 < total_supply,
        amount <= total_supply,
    ensures
        ratio_of(amount, total_supply) <= MAGNIFIER,
{
    let m = MAGNIFIER as nat;
    assert(amount * m <= total_supply * m) by (nonlinear_arith)
        requires
            amount <= total_supply,
    ;
    assert((amount * m) / total_supply <= m) by (nonlinear_arith)
        requires
            0 < total_supply,
            amount * m <= total_supply * m,
    ;
}

/// Redeeming everything that is outstanding gives a ratio of exactly one.
pub proof fn lemma_ratio_of_everything(total_supply: nat)
    requires
        0 < total_supply,
    ensures
        ratio_of(total_supply, total_supply) == MAGNIFIER,
{
    let m = MAGNIFIER as nat;
    assert((total_supply * m) / total_supply == m) by (nonlinear_arith)
        requires
            0 < total_supply,
    ;
}

/// A ratio of at most one never takes more than is held, and a ratio of one
/// takes all of it.
pub proof fn lemma_share_at_most_held(held: nat, ratio: nat)
    requires
        ratio <= MAGNIFIER,
    ensures
        share_of(held, ratio) <= held,
        ratio == MAGNIFIER ==> share_of(held, ratio) == held,
{
    let m = MAGNIFIER as nat;
    assert(held * ratio <= held * m) by (nonlinear_arith)
        requires
            ratio <= m,
    ;
    assert((held * ratio) / m <= held) by (nonlinear_arith)
        requires
            0 < m,
            held * ratio <= held * m,
    ;
    assert((held * m) / m == held) by (nonlinear_arith)
        requires
            0 < m,
    ;
}

/// The redemption ratio of `amount` shares out of `total_supply`.
///
/// Fails with `MathOverflow` exactly when nothing is outstanding; the product
/// is formed in 128 bits, where it always fits.
pub fn redemption_ratio(amount: u64, total_supply: u64) -> (result: Result<u128, BasketError>)
    ensures
        total_supply == 0 ==> result == Err::<u128, BasketError>(BasketError::MathOverflow),
        total_supply != 0 ==> result == Ok::<u128, BasketError>(
            ratio_of(amount as nat, total_supply as nat) as u128,
        ),
        total_supply != 0 ==> ratio_of(amount as nat, total_supply as nat) <= u128::MAX,
{
    if total_supply == 0 {
        return Err(BasketError::MathOverflow);
    }
    let wide: u128 = amount as u128;
    assert(wide * MAGNIFIER <= 0xffff_ffff_ffff_ffff * 1_000_000_000) by (nonlinear_arith)
        requires
            wide <= 0xffff_ffff_ffff_ffff,
            MAGNIFIER == 1_000_000_000,
    ;
    let scaled: u128 = wide * MAGNIFIER;
    let ratio: u128 = scaled / (total_supply as u128);
    Ok(ratio)
}

/// The quantity of one constituent that a redemption at `ratio` withdraws
/// from a custody balance of `held`.
///
/// Fails with `MathOverflow` exactly when the quantity does not fit in 64
/// bits, which no ratio of at most one can cause.
pub fn leg_withdraw_qty(held: u64, ratio: u128) -> (result: Result<u64, BasketError>)
    ensures
        share_of(held as nat, ratio as nat) <= u64::MAX ==> result == Ok::<u64, BasketError>(
            share_of(held as nat, ratio as nat) as u64,
        ),
        share_of(held as nat, ratio as nat) > u64::MAX ==> result == Err::<u64, BasketError>(
            BasketError::MathOverflow,
        ),
{
    let wide: u128 = held as u128;
    match wide.checked_mul(ratio) {
        None => {
            assert((wide * ratio) / MAGNIFIER as int > u64::MAX) by (nonlinear_arith)
                requires
                    wide * ratio > u128::MAX,
                    MAGNIFIER == 1_000_000_000,
            ;
            Err(BasketError::MathOverflow)
        },
        Some(product) => {
            let quantity: u128 = product / MAGNIFIER;
            if quantity > u64::MAX as u128 {
                Err(BasketError::MathOverflow)
            } else {
                Ok(quantity as u64)
            }
        },
    }
}

} // verus!
