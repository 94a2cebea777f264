//! What the authority does: create the vault, add and remove constituents,
//! pause and resume, and withdraw funds.

use crate::error::BasketError;
use crate::math::{MAX_TOKENS, MAX_TOTAL_WEIGHT};
use crate::pubkey::Pubkey;
use crate::state::{
    first_position, holds_mint, lemma_weight_sum_push, lemma_weight_sum_remove, weight_sum,
    BasketState, BasketView, TokenInfo,
};
use vstd::prelude::*;

verus! {

/// What the creation of a vault works on: the record to fill, who creates
/// it, and the bump of the vault's derived address.
#[derive(Clone, Debug)]
pub struct Initialize {
    pub basket: BasketState,
    pub authority: Pubkey,
    pub bump: u8,
}

/// What the addition of a constituent works on: the vault record and the
/// caller.
#[derive(Clone, Debug)]
pub struct AddToken {
    pub basket: BasketState,
    pub authority: Pubkey,
}

/// What the removal of a constituent works on: the vault record and the
/// caller.
#[derive(Clone, Debug)]
pub struct RemoveToken {
    pub basket: BasketState,
    pub authority: Pubkey,
}

/// What pausing and resuming work on: the vault record and the caller.
#[derive(Clone, Debug)]
pub struct SetPaused {
    pub basket: BasketState,
    pub authority: Pubkey,
}

/// What a withdrawal by the authority works on: the vault record, what the
/// vault holds of the funding asset, the caller, and what the caller holds.
#[derive(Clone, Debug)]
pub struct WithdrawAuthoritySol {
    pub basket: BasketState,
    pub basket_lamports: u64,
    pub authority: Pubkey,
    pub authority_lamports: u64,
}

/// The record of a vault that has just been created.
pub open spec fn created(authority: Pubkey, bump: u8, max_tokens: u8) -> BasketView {
    BasketView {
        authority,
        tokens: Seq::empty(),
        total_supply: 0,
        bump,
        max_tokens,
        paused: false,
        reentrancy_guard: false,
    }
}

/// The constituent that `add_token` enters: the asset, its weight, and no
/// custody account yet.
pub open spec fn new_entry(token_mint: Pubkey, weight: u8) -> TokenInfo {
    TokenInfo { mint: token_mint, weight, token_account: Pubkey::spec_default() }
}

/// What adding a constituent comes to: the vault record with the
/// constituent at the end of the registry, or the first objection among:
/// the vault is paused, the caller is not the authority, the registry is
/// full, the weights would sum to more than a hundred, the asset is there
/// already.
pub open spec fn add_token_result(
    basket: BasketView,
    caller: Pubkey,
    token_mint: Pubkey,
    weight: u8,
) -> Result<BasketView, BasketError> {
    if basket.paused {
        Err(BasketError::ProgramPaused)
    } else if basket.authority != caller {
        Err(BasketError::Unauthorized)
    } else if basket.tokens.len() >= basket.max_tokens {
        Err(BasketError::TooManyTokens)
    } else if weight_sum(basket.tokens) + weight > MAX_TOTAL_WEIGHT {
        Err(BasketError::WeightOverflow)
    } else if holds_mint(basket.tokens, token_mint) {
        Err(BasketError::DuplicateToken)
    } else {
        Ok(BasketView { tokens: basket.tokens.push(new_entry(token_mint, weight)), ..basket })
    }
}

/// The first place at which the registry holds the asset.  Meaningful for
/// a registry that holds it.
pub open spec fn first_index(tokens: Seq<TokenInfo>, mint: Pubkey) -> int {
    choose|index: int| first_position(tokens, mint, index)
}

/// What removing a constituent comes to: the vault record without the
/// first entry for the asset, or the first objection among: the vault is
/// paused, the caller is not the authority, the asset is not there.
pub open spec fn remove_token_result(
    basket: BasketView,
    caller: Pubkey,
    token_mint: Pubkey,
) -> Result<BasketView, BasketError> {
    if basket.paused {
        Err(BasketError::ProgramPaused)
    } else if basket.authority != caller {
        Err(BasketError::Unauthorized)
    } else if !holds_mint(basket.tokens, token_mint) {
        Err(BasketError::TokenNotFound)
    } else {
        Ok(
            BasketView {
                tokens: basket.tokens.remove(first_index(basket.tokens, token_mint)),
                ..basket
            },
        )
    }
}

/// What pausing or resuming comes to: the vault record with the flag as
/// asked, unless the caller is not the authority.
pub open spec fn set_paused_result(basket: BasketView, caller: Pubkey, paused: bool) -> Result<
    BasketView,
    BasketError,
> {
    if basket.authority != caller {
        Err(BasketError::Unauthorized)
    } else {
        Ok(BasketView { paused, ..basket })
    }
}

/// What a withdrawal by the authority comes to: what the vault and the
/// caller hold afterwards, or the first objection among: the caller is not
/// the authority, the vault holds less than is asked for, the caller would
/// hold more than fits in 64 bits.  The pause and the lock play no part.
pub open spec fn withdraw_result(
    basket: BasketView,
    basket_lamports: u64,
    caller: Pubkey,
    caller_lamports: u64,
    amount: u64,
) -> Result<(u64, u64), BasketError> {
    if basket.authority != caller {
        Err(BasketError::Unauthorized)
    } else if basket_lamports < amount {
        Err(BasketError::InsufficientBalance)
    } else if caller_lamports + amount > u64::MAX {
        Err(BasketError::MathOverflow)
    } else {
        Ok(((basket_lamports - amount) as u64, (caller_lamports + amount) as u64))
    }
}

/// In a registry that holds the asset, the first place at which it does
/// is one place, and `first_index` is that place.
pub proof fn lemma_first_index(tokens: Seq<TokenInfo>, mint: Pubkey, index: int)
    requires
        first_position(tokens, mint, index),
    ensures
        first_index(tokens, mint) == index,
        holds_mint(tokens, mint),
{
    let chosen = first_index(tokens, mint);
    assert(first_position(tokens, mint, chosen));
    if chosen < index {
        assert(tokens[chosen].mint != mint);
    } else if index < chosen {
        assert(tokens[index].mint != mint);
    }
}

/// Creates the vault: fills the record in `ctx` for the given capacity.
///
/// Fails with `TooManyTokens`, and changes nothing, exactly when the
/// capacity is above `MAX_TOKENS`.
pub fn initialize(ctx: &mut Initialize, max_tokens: u8) -> (result: Result<(), BasketError>)
    ensures
        final(ctx).authority == old(ctx).authority,
        final(ctx).bump == old(ctx).bump,
        max_tokens > MAX_TOKENS ==> result == Err::<(), BasketError>(BasketError::TooManyTokens)
            && final(ctx).basket == old(ctx).basket,
        max_tokens <= MAX_TOKENS ==> result == Ok::<(), BasketError>(()) && final(ctx).basket@
            == created(old(ctx).authority, old(ctx).bump, max_tokens) && final(ctx).basket@.wf(),
{
    if max_tokens as usize > MAX_TOKENS {
        return Err(BasketError::TooManyTokens);
    }
    ctx.basket.authority = ctx.authority;
    ctx.basket.tokens = Vec::new();
    ctx.basket.total_supply = 0;
    ctx.basket.bump = ctx.bump;
    ctx.basket.max_tokens = max_tokens;
    ctx.basket.paused = false;
    ctx.basket.reentrancy_guard = false;
    Ok(())
}

/// Adds a constituent of the given weight at the end of the registry.
///
/// On any failure the record is unchanged.  A record that was well formed
/// stays so.
pub fn add_token(ctx: &mut AddToken, token_mint: Pubkey, weight: u8) -> (result: Result<
    (),
    BasketError,
>)
    ensures
        final(ctx).authority == old(ctx).authority,
        match add_token_result(old(ctx).basket@, old(ctx).authority, token_mint, weight) {
            Ok(basket) => result == Ok::<(), BasketError>(()) && final(ctx).basket@ == basket,
            Err(error) => result == Err::<(), BasketError>(error) && final(ctx).basket == old(
                ctx,
            ).basket,
        },
        old(ctx).basket@.wf() ==> final(ctx).basket@.wf(),
{
    if ctx.basket.paused {
        return Err(BasketError::ProgramPaused);
    }
    if ctx.basket.authority != ctx.authority {
        return Err(BasketError::Unauthorized);
    }
    if ctx.basket.tokens.len() >= ctx.basket.max_tokens as usize {
        return Err(BasketError::TooManyTokens);
    }
    if ctx.basket.exceeds_weight_cap(weight) {
        return Err(BasketError::WeightOverflow);
    }
    if ctx.basket.position(&token_mint).is_some() {
        return Err(BasketError::DuplicateToken);
    }
    let entry = TokenInfo { mint: token_mint, weight, token_account: Pubkey::default() };
    proof {
        lemma_weight_sum_push(ctx.basket.tokens@, entry);
    }
    ctx.basket.tokens.push(entry);
    Ok(())
}

/// Removes the constituent with the given asset from the registry; the
/// others keep their order.
///
/// On any failure the record is unchanged.  A record that was well formed
/// stays so.
pub fn remove_token(ctx: &mut RemoveToken, token_mint: Pubkey) -> (result: Result<(), BasketError>)
    ensures
        final(ctx).authority == old(ctx).authority,
        match remove_token_result(old(ctx).basket@, old(ctx).authority, token_mint) {
            Ok(basket) => result == Ok::<(), BasketError>(()) && final(ctx).basket@ == basket,
            Err(error) => result == Err::<(), BasketError>(error) && final(ctx).basket == old(
                ctx,
            ).basket,
        },
        old(ctx).basket@.wf() ==> final(ctx).basket@.wf(),
{
    if ctx.basket.paused {
        return Err(BasketError::ProgramPaused);
    }
    if ctx.basket.authority != ctx.authority {
        return Err(BasketError::Unauthorized);
    }
    let token_index: usize = match ctx.basket.position(&token_mint) {
        None => {
            return Err(BasketError::TokenNotFound);
        },
        Some(token_index) => token_index,
    };
    proof {
        lemma_first_index(ctx.basket.tokens@, token_mint, token_index as int);
        lemma_weight_sum_remove(ctx.basket.tokens@, token_index as int);
    }
    ctx.basket.tokens.remove(token_index);
    Ok(())
}

/// Pauses or resumes the vault.  Only the authority may; for anyone else
/// the record is unchanged.
pub fn set_paused(ctx: &mut SetPaused, paused: bool) -> (result: Result<(), BasketError>)
    ensures
        final(ctx).authority == old(ctx).authority,
        match set_paused_result(old(ctx).basket@, old(ctx).authority, paused) {
            Ok(basket) => result == Ok::<(), BasketError>(()) && final(ctx).basket@ == basket,
            Err(error) => result == Err::<(), BasketError>(error) && final(ctx).basket == old(
                ctx,
            ).basket,
        },
        old(ctx).basket@.wf() ==> final(ctx).basket@.wf(),
{
    if ctx.basket.authority != ctx.authority {
        return Err(BasketError::Unauthorized);
    }
    ctx.basket.paused = paused;
    Ok(())
}

/// Moves `amount` of the funding asset from the vault to the authority.
///
/// The vault record is never changed, and on any failure neither are the
/// two holdings.  Neither the pause nor the lock stands in the way.
pub fn withdraw_authority_sol(ctx: &mut WithdrawAuthoritySol, amount: u64) -> (result: Result<
    (),
    BasketError,
>)
    ensures
        final(ctx).authority == old(ctx).authority,
        final(ctx).basket == old(ctx).basket,
        match withdraw_result(
            old(ctx).basket@,
            old(ctx).basket_lamports,
            old(ctx).authority,
            old(ctx).authority_lamports,
            amount,
        ) {
            Ok(held) => result == Ok::<(), BasketError>(()) && final(ctx).basket_lamports == held.0
                && final(ctx).authority_lamports == held.1,
            Err(error) => result == Err::<(), BasketError>(error) && final(ctx).basket_lamports
                == old(ctx).basket_lamports && final(ctx).authority_lamports == old(
                ctx,
            ).authority_lamports,
        },
{
    if ctx.basket.authority != ctx.authority {
        return Err(BasketError::Unauthorized);
    }
    if ctx.basket_lamports < amount {
        return Err(BasketError::InsufficientBalance);
    }
    let credited: u64 = match ctx.authority_lamports.checked_add(amount) {
        None => {
            return Err(BasketError::MathOverflow);
        },
        Some(credited) => credited,
    };
    ctx.basket_lamports = ctx.basket_lamports - amount;
    ctx.authority_lamports = credited;
    Ok(())
}

} // verus!
