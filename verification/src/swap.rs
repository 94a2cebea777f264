//! One leg of a deposit or a redemption: the check of the custody account
//! and the call to the venue over the accounts supplied for the leg.

use crate::error::BasketError;
use crate::jupiter::{jupiter_v6_id, RouteSwapParams, JUPITER_V6_ID};
use crate::math::ACCOUNTS_PER_LEG;
use crate::pubkey::Pubkey;
use crate::state::TokenInfo;
use vstd::prelude::*;

verus! {

/// The place, within the accounts of a leg, of the custody account in which
/// the vault holds the leg's constituent.
pub const CUSTODY_SLOT: usize = 1;

/// One account of a call to the venue, and how the call may use it.
#[derive(Clone, Copy, Debug)]
pub struct AccountMeta {
    pub pubkey: Pubkey,
    pub is_signer: bool,
    pub is_writable: bool,
}

/// A call to the venue, ready to be issued.
#[derive(Clone, Debug)]
pub struct SwapInstruction {
    pub program_id: Pubkey,
    pub accounts: Vec<AccountMeta>,
    pub data: Vec<u8>,
}

/// A call to the venue as a mathematical value.
pub struct SwapInstructionView {
    pub program_id: Pubkey,
    pub accounts: Seq<AccountMeta>,
    pub data: Seq<u8>,
}

impl View for SwapInstruction {
    type V = SwapInstructionView;

    open spec fn view(&self) -> SwapInstructionView {
        SwapInstructionView {
            program_id: self.program_id,
            accounts: self.accounts@,
            data: self.data@,
        }
    }
}

/// What a custody account says of itself when it is read.
#[derive(Clone, Copy, Debug)]
pub struct CustodyAccount {
    /// The asset it holds.
    pub mint: Pubkey,
    /// Who controls it.
    pub owner: Pubkey,
    /// How much it holds.
    pub amount: u64,
}

/// Whether the list of accounts has the block of the given leg.
pub open spec fn has_leg_block(accounts: Seq<AccountMeta>, leg: int) -> bool {
    0 <= leg && (leg + 1) * ACCOUNTS_PER_LEG <= accounts.len()
}

/// The accounts of the given leg: twelve, from place `leg * 12` on.
pub open spec fn leg_block(accounts: Seq<AccountMeta>, leg: int) -> Seq<AccountMeta> {
    accounts.subrange(leg * ACCOUNTS_PER_LEG, (leg + 1) * ACCOUNTS_PER_LEG)
}

/// The call that sells `params.in_amount` on the given leg: addressed to the
/// venue, over the leg's accounts as they were supplied, carrying the
/// parameters.
pub open spec fn leg_instruction(
    accounts: Seq<AccountMeta>,
    leg: int,
    params: RouteSwapParams,
) -> SwapInstructionView {
    SwapInstructionView {
        program_id: Pubkey { bytes: JUPITER_V6_ID },
        accounts: leg_block(accounts, leg),
        data: params.spec_instruction_data(),
    }
}

/// The block of a leg has twelve accounts, and the custody account that is
/// read and checked for the leg, at place `leg * 12 + 1` of the accounts
/// supplied, is the one that the call hands to the venue at place 1.
pub proof fn lemma_custody_is_in_block(accounts: Seq<AccountMeta>, leg: int)
    requires
        has_leg_block(accounts, leg),
    ensures
        leg_block(accounts, leg).len() == ACCOUNTS_PER_LEG,
        0 <= leg * ACCOUNTS_PER_LEG + CUSTODY_SLOT < accounts.len(),
        leg_block(accounts, leg)[CUSTODY_SLOT as int] == accounts[leg * ACCOUNTS_PER_LEG
            + CUSTODY_SLOT],
{
}

/// What the check of a custody account against its constituent says: the
/// account must hold the constituent's asset and be controlled by the vault.
pub open spec fn custody_check(custody: CustodyAccount, token: TokenInfo, vault: Pubkey) -> Result<
    (),
    BasketError,
> {
    if custody.mint != token.mint {
        Err(BasketError::InvalidTokenMint)
    } else if custody.owner != vault {
        Err(BasketError::InvalidTokenOwner)
    } else {
        Ok(())
    }
}

/// Checks a custody account against the constituent it is presented for.
pub fn check_custody(custody: &CustodyAccount, token: &TokenInfo, vault: &Pubkey) -> (result:
    Result<(), BasketError>)
    ensures
        result == custody_check(*custody, *token, *vault),
{
    if custody.mint != token.mint {
        Err(BasketError::InvalidTokenMint)
    } else if custody.owner != *vault {
        Err(BasketError::InvalidTokenOwner)
    } else {
        Ok(())
    }
}

/// Builds the call for one leg, or nothing if the list of accounts is too
/// short to hold the leg's block.
pub fn swap_instruction(accounts: &Vec<AccountMeta>, leg: usize, params: &RouteSwapParams) -> (call:
    Option<SwapInstruction>)
    ensures
        has_leg_block(accounts@, leg as int) ==> call is Some && call->0@ == leg_instruction(
            accounts@,
            leg as int,
            *params,
        ),
        !has_leg_block(accounts@, leg as int) ==> call is None,
{
    if leg >= accounts.len() / ACCOUNTS_PER_LEG {
        return None;
    }
    let first: usize = leg * ACCOUNTS_PER_LEG;
    let end: usize = first + ACCOUNTS_PER_LEG;
    let mut block: Vec<AccountMeta> = Vec::new();
    let mut i: usize = first;
    while i < end
        invariant
            first <= i <= end <= accounts.len(),
            block@ == accounts@.subrange(first as int, i as int),
        decreases end - i,
    {
        block.push(accounts[i]);
        i += 1;
    }
    Some(
        SwapInstruction {
            program_id: jupiter_v6_id(),
            accounts: block,
            data: params.instruction_data(),
        },
    )
}

} // verus!
