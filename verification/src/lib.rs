//! A custodial basket vault: depositors fund the vault with a single asset,
//! the vault routes it through a swap venue into a weighted basket of
//! constituents, and issues a claim token for a proportional share.
//!
//! Everything here works on plain values.  The host program moves funds,
//! mints and burns, calls the venue and reads balances; this library decides
//! what is to be done next and what each result means.
//!
//! A deposit or a redemption is a conversation.  The host starts with
//! `DepositProgress::start()` and `DepositEvent::Begin`, does what the
//! returned action asks, and reports back, until the action is `Complete` or
//! `Abort`.  On `Abort` the vault record is as it was before, and the host
//! is to discard whatever it did on the way.

pub mod error;
pub mod pubkey;
pub mod math;
pub mod state;
pub mod jupiter;
pub mod swap;
pub mod guard;
pub mod deposit;
pub mod deposit_laws;
pub mod redeem;
pub mod redeem_laws;
pub mod registry;
pub mod registry_laws;

pub use crate::deposit::{
    abandon_deposit, deposit, Deposit, DepositAction, DepositEvent, DepositProgress, DepositStep,
};
pub use crate::error::{BasketError, ErrorKind};
pub use crate::guard::{with_reentrancy_guard, ReentrancyGuard};
pub use crate::math::{
    leg_withdraw_qty, redemption_ratio, ACCOUNTS_PER_LEG, MAGNIFIER, MAX_TOKENS,
    MAX_TOTAL_WEIGHT, MINIMUM_DEPOSIT,
};
pub use crate::jupiter::{jupiter_v6_id, RouteSwapParams, JUPITER_V6_ID, ROUTE_SWAP_TAG};
pub use crate::pubkey::Pubkey;
pub use crate::redeem::{
    abandon_redeem, redeem, Redeem, RedeemAction, RedeemEvent, RedeemProgress, RedeemStep,
};
pub use crate::registry::{
    add_token, initialize, remove_token, set_paused, withdraw_authority_sol, AddToken, Initialize,
    RemoveToken, SetPaused, WithdrawAuthoritySol,
};
pub use crate::state::{BasketState, TokenInfo};
pub use crate::swap::{
    check_custody, swap_instruction, AccountMeta, CustodyAccount, SwapInstruction, CUSTODY_SLOT,
};
