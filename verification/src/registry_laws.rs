//! What holds of the registry and of the authority's operations, whatever
//! calls are made.

use crate::error::{BasketError, ErrorKind};
use crate::math::{MAX_TOKENS, MAX_TOTAL_WEIGHT};
use crate::pubkey::Pubkey;
use crate::registry::{
    add_token_result, created, first_index, lemma_first_index, new_entry, remove_token_result,
    set_paused_result, withdraw_result,
};
use crate::state::{
    first_position, holds_mint, lemma_weight_sum_push, lemma_weight_sum_remove, weight_sum,
    BasketView, TokenInfo,
};
use vstd::prelude::*;

verus! {

/// One call of `add_token`: who calls, and what is to be added.
pub struct AddCall {
    pub caller: Pubkey,
    pub token_mint: Pubkey,
    pub weight: u8,
}

/// The vault record after one call of `add_token`: with the constituent
/// where the call went through, unchanged where it did not.
pub open spec fn after_add(basket: BasketView, call: AddCall) -> BasketView {
    match add_token_result(basket, call.caller, call.token_mint, call.weight) {
        Ok(added) => added,
        Err(_) => basket,
    }
}

/// The vault record after a sequence of calls of `add_token`, each made on
/// what the one before it left.
pub open spec fn after_adds(basket: BasketView, calls: Seq<AddCall>) -> BasketView
    decreases calls.len(),
{
    if calls.len() == 0 {
        basket
    } else {
        after_add(after_adds(basket, calls.drop_last()), calls.last())
    }
}

/// A call of `add_token`, whether it goes through or not, leaves weights
/// that were within the bound within the bound, and a well-formed record
/// well formed.
pub proof fn lemma_add_keeps_weight_bound(basket: BasketView, call: AddCall)
    ensures
        weight_sum(basket.tokens) <= MAX_TOTAL_WEIGHT ==> weight_sum(
            after_add(basket, call).tokens,
        ) <= MAX_TOTAL_WEIGHT,
        basket.wf() ==> after_add(basket, call).wf(),
{
    lemma_weight_sum_push(basket.tokens, new_entry(call.token_mint, call.weight));
}

/// Whatever calls of `add_token` are made, by whomever and in whatever
/// order, the weights never sum to more than a hundred, and a well-formed
/// record stays well formed.
pub proof fn lemma_adds_keep_weight_bound(basket: BasketView, calls: Seq<AddCall>)
    ensures
        weight_sum(basket.tokens) <= MAX_TOTAL_WEIGHT ==> weight_sum(
            after_adds(basket, calls).tokens,
        ) <= MAX_TOTAL_WEIGHT,
        basket.wf() ==> after_adds(basket, calls).wf(),
    decreases calls.len(),
{
    if calls.len() > 0 {
        lemma_adds_keep_weight_bound(basket, calls.drop_last());
        lemma_add_keeps_weight_bound(after_adds(basket, calls.drop_last()), calls.last());
    }
}

/// From its creation on, whatever calls of `add_token` are made, a vault
/// holds at most as many constituents as it was created for, no asset
/// twice, and weights that sum to at most a hundred.
pub proof fn lemma_adds_from_creation(
    authority: Pubkey,
    bump: u8,
    max_tokens: u8,
    calls: Seq<AddCall>,
)
    requires
        max_tokens <= MAX_TOKENS,
    ensures
        created(authority, bump, max_tokens).wf(),
        after_adds(created(authority, bump, max_tokens), calls).wf(),
{
    lemma_adds_keep_weight_bound(created(authority, bump, max_tokens), calls);
}

/// A call of `add_token` that would take the weights above a hundred
/// fails and leaves the record unchanged.  Made by the authority on a
/// vault that is not paused, it fails for want of room or for the weight;
/// where there is room, for the weight.
pub proof fn lemma_add_over_weight_fails(basket: BasketView, call: AddCall)
    requires
        weight_sum(basket.tokens) + call.weight > MAX_TOTAL_WEIGHT,
    ensures
        add_token_result(basket, call.caller, call.token_mint, call.weight) is Err,
        after_add(basket, call) == basket,
        !basket.paused && basket.authority == call.caller ==> ({
            let error = add_token_result(basket, call.caller, call.token_mint, call.weight)->Err_0;
            &&& error.spec_kind() == ErrorKind::Capacity || error.spec_kind()
                == ErrorKind::Accounting
            &&& basket.tokens.len() < basket.max_tokens ==> error == BasketError::WeightOverflow
        }),
{
}

/// A call of `add_token` for an asset that the registry holds fails and
/// leaves the record unchanged.  Where nothing else is in the way, the
/// error is `DuplicateToken`.
pub proof fn lemma_add_duplicate_fails(basket: BasketView, call: AddCall)
    requires
        holds_mint(basket.tokens, call.token_mint),
    ensures
        add_token_result(basket, call.caller, call.token_mint, call.weight) is Err,
        after_add(basket, call) == basket,
        !basket.paused && basket.authority == call.caller && basket.tokens.len()
            < basket.max_tokens && weight_sum(basket.tokens) + call.weight <= MAX_TOTAL_WEIGHT
            ==> add_token_result(basket, call.caller, call.token_mint, call.weight) == Err::<
            BasketView,
            BasketError,
        >(BasketError::DuplicateToken),
{
}

/// After a call of `add_token` that went through, the registry holds the
/// asset, at the end, with the weight that was given; a second call for
/// the same asset fails.
pub proof fn lemma_add_then_add_again_fails(basket: BasketView, call: AddCall, again: AddCall)
    requires
        add_token_result(basket, call.caller, call.token_mint, call.weight) is Ok,
        again.token_mint == call.token_mint,
    ensures
        ({
            let added = after_add(basket, call);
            &&& added.tokens.len() == basket.tokens.len() + 1
            &&& added.tokens.last().mint == call.token_mint
            &&& added.tokens.last().weight == call.weight
            &&& weight_sum(added.tokens) == weight_sum(basket.tokens) + call.weight
            &&& holds_mint(added.tokens, call.token_mint)
            &&& add_token_result(added, again.caller, again.token_mint, again.weight) is Err
            &&& after_add(added, again) == added
        }),
{
    let added = after_add(basket, call);
    lemma_weight_sum_push(basket.tokens, new_entry(call.token_mint, call.weight));
    assert(added.tokens[added.tokens.len() - 1].mint == call.token_mint);
}

/// Removing a constituent from a well-formed record frees its weight and
/// leaves a registry that no longer holds the asset, so that the asset can
/// be removed only once.
pub proof fn lemma_remove_frees_weight(basket: BasketView, caller: Pubkey, token_mint: Pubkey)
    requires
        basket.wf(),
        remove_token_result(basket, caller, token_mint) is Ok,
    ensures
        ({
            let removed = remove_token_result(basket, caller, token_mint)->Ok_0;
            let index = first_index(basket.tokens, token_mint);
            &&& first_position(basket.tokens, token_mint, index)
            &&& removed.tokens.len() + 1 == basket.tokens.len()
            &&& weight_sum(removed.tokens) + basket.tokens[index].weight == weight_sum(
                basket.tokens,
            )
            &&& !holds_mint(removed.tokens, token_mint)
            &&& removed.wf()
            &&& remove_token_result(removed, caller, token_mint) == Err::<
                BasketView,
                BasketError,
            >(BasketError::TokenNotFound)
        }),
{
    let witness = choose|i: int|
        0 <= i < basket.tokens.len() && (#[trigger] basket.tokens[i]).mint == token_mint;
    lemma_some_position_is_first(basket.tokens, token_mint, witness);
    let index = first_index(basket.tokens, token_mint);
    lemma_weight_sum_remove(basket.tokens, index);
    let removed = basket.tokens.remove(index);
    assert forall|i: int| 0 <= i < removed.len() implies (#[trigger] removed[i]).mint
        != token_mint by {
        if i < index {
            assert(removed[i] == basket.tokens[i]);
        } else {
            assert(removed[i] == basket.tokens[i + 1]);
        }
    }
}

/// A registry that holds the asset at some place holds it at a first
/// place.
pub proof fn lemma_some_position_is_first(
    tokens: Seq<TokenInfo>,
    mint: Pubkey,
    place: int,
)
    requires
        0 <= place < tokens.len(),
        tokens[place].mint == mint,
    ensures
        first_position(tokens, mint, first_index(tokens, mint)),
        first_index(tokens, mint) <= place,
    decreases place,
{
    if exists|j: int| 0 <= j < place && (#[trigger] tokens[j]).mint == mint {
        let earlier = choose|j: int| 0 <= j < place && (#[trigger] tokens[j]).mint == mint;
        lemma_some_position_is_first(tokens, mint, earlier);
    } else {
        assert(first_position(tokens, mint, place));
        lemma_first_index(tokens, mint, place);
    }
}

/// While the vault is paused, constituents can be neither added nor
/// removed, whoever asks.
pub proof fn lemma_pause_blocks_registry(
    basket: BasketView,
    caller: Pubkey,
    token_mint: Pubkey,
    weight: u8,
)
    requires
        basket.paused,
    ensures
        add_token_result(basket, caller, token_mint, weight) == Err::<BasketView, BasketError>(
            BasketError::ProgramPaused,
        ),
        remove_token_result(basket, caller, token_mint) == Err::<BasketView, BasketError>(
            BasketError::ProgramPaused,
        ),
{
}

/// What a withdrawal by the authority comes to does not depend on the
/// pause or on the lock: paused or not, locked or not, the authority is
/// paid whenever the vault holds what is asked for and the sum fits.
pub proof fn lemma_withdraw_ignores_pause(
    basket: BasketView,
    paused: bool,
    locked: bool,
    basket_lamports: u64,
    caller_lamports: u64,
    amount: u64,
)
    ensures
        withdraw_result(
            BasketView { paused, reentrancy_guard: locked, ..basket },
            basket_lamports,
            basket.authority,
            caller_lamports,
            amount,
        ) == withdraw_result(basket, basket_lamports, basket.authority, caller_lamports, amount),
        amount <= basket_lamports && caller_lamports + amount <= u64::MAX ==> withdraw_result(
            basket,
            basket_lamports,
            basket.authority,
            caller_lamports,
            amount,
        ) == Ok::<(u64, u64), BasketError>(
            ((basket_lamports - amount) as u64, (caller_lamports + amount) as u64),
        ),
{
}

/// A withdrawal moves the amount and nothing else: what the vault and the
/// authority hold together is the same before and after.
pub proof fn lemma_withdraw_conserves(
    basket: BasketView,
    basket_lamports: u64,
    caller: Pubkey,
    caller_lamports: u64,
    amount: u64,
)
    requires
        withdraw_result(basket, basket_lamports, caller, caller_lamports, amount) is Ok,
    ensures
        ({
            let held = withdraw_result(
                basket,
                basket_lamports,
                caller,
                caller_lamports,
                amount,
            )->Ok_0;
            &&& held.0 + held.1 == basket_lamports + caller_lamports
            &&& held.0 + amount == basket_lamports
        }),
{
}

/// Only the authority can pause or resume, and it always can: the pause
/// does not stand in the way of lifting it.
pub proof fn lemma_only_authority_pauses(basket: BasketView, caller: Pubkey, paused: bool)
    ensures
        set_paused_result(basket, caller, paused) is Ok <==> caller == basket.authority,
        caller == basket.authority ==> set_paused_result(basket, caller, paused)->Ok_0.paused
            == paused,
{
}

} // verus!
