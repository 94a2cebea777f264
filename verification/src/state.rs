//! The vault record and its registry of constituents.

use crate::math::{ACCOUNTS_PER_LEG, MAX_TOKENS, MAX_TOTAL_WEIGHT};
use crate::pubkey::Pubkey;
use vstd::prelude::*;

verus! {

/// One constituent of the basket.
#[derive(Clone, Copy, Debug)]
pub struct TokenInfo {
    /// The asset.
    pub mint: Pubkey,
    /// Its target weight in the basket, in percent.
    pub weight: u8,
    /// The custody account in which the vault holds it.
    pub token_account: Pubkey,
}

/// The vault record.
#[derive(Clone, Debug)]
pub struct BasketState {
    /// Who may administer the vault.
    pub authority: Pubkey,
    /// The constituents, in the order in which they were added: the order of
    /// the legs.
    pub tokens: Vec<TokenInfo>,
    /// The claim tokens outstanding.
    pub total_supply: u64,
    /// The bump of the vault's derived address.
    pub bump: u8,
    /// The number of constituents the record was sized for.
    pub max_tokens: u8,
    /// Whether user-facing operations are frozen.
    pub paused: bool,
    /// Whether a deposit or a redemption is in flight.
    pub reentrancy_guard: bool,
}

/// The vault record as a mathematical value.
pub struct BasketView {
    pub authority: Pubkey,
    pub tokens: Seq<TokenInfo>,
    pub total_supply: u64,
    pub bump: u8,
    pub max_tokens: u8,
    pub paused: bool,
    pub reentrancy_guard: bool,
}

impl View for BasketState {
    type V = BasketView;

    open spec fn view(&self) -> BasketView {
        BasketView {
            authority: self.authority,
            tokens: self.tokens@,
            total_supply: self.total_supply,
            bump: self.bump,
            max_tokens: self.max_tokens,
            paused: self.paused,
            reentrancy_guard: self.reentrancy_guard,
        }
    }
}

/// The sum of the weights of a list of constituents.
pub open spec fn weight_sum(tokens: Seq<TokenInfo>) -> nat
    decreases tokens.len(),
{
    if tokens.len() == 0 {
        0
    } else {
        weight_sum(tokens.drop_last()) + tokens.last().weight as nat
    }
}

/// Whether a list of constituents holds the asset.
pub open spec fn holds_mint(tokens: Seq<TokenInfo>, mint: Pubkey) -> bool {
    exists|i: int| 0 <= i < tokens.len() && (#[trigger] tokens[i]).mint == mint
}

/// Whether no asset occurs twice in a list of constituents.
pub open spec fn mints_distinct(tokens: Seq<TokenInfo>) -> bool {
    forall|i: int, j: int|
        0 <= i < j < tokens.len() ==> (#[trigger] tokens[i]).mint != (#[trigger] tokens[j]).mint
}

/// Whether `index` is the first place at which the list holds the asset.
pub open spec fn first_position(tokens: Seq<TokenInfo>, mint: Pubkey, index: int) -> bool {
    &&& 0 <= index < tokens.len()
    &&& tokens[index].mint == mint
    &&& forall|j: int| 0 <= j < index ==> (#[trigger] tokens[j]).mint != mint
}

impl BasketView {
    /// The record as it was before the operation that holds the lock began:
    /// `supply_before` claim tokens outstanding, and the lock free.
    pub open spec fn rolled_back(self, supply_before: u64) -> BasketView {
        BasketView { total_supply: supply_before, reentrancy_guard: false, ..self }
    }

    /// The same record with the lock taken or released.
    pub open spec fn with_lock(self, held: bool) -> BasketView {
        BasketView { reentrancy_guard: held, ..self }
    }

    /// The same record with another number of claim tokens outstanding.
    pub open spec fn with_supply(self, total_supply: u64) -> BasketView {
        BasketView { total_supply, ..self }
    }

    /// What holds of every vault record that the operations produce: the
    /// weights sum to at most a hundred, no asset occurs twice, and the
    /// registry is within the capacity the record was created with.
    pub open spec fn wf(self) -> bool {
        &&& weight_sum(self.tokens) <= MAX_TOTAL_WEIGHT
        &&& mints_distinct(self.tokens)
        &&& self.tokens.len() <= self.max_tokens
        &&& self.max_tokens <= MAX_TOKENS
    }
}

/// Adding a constituent at the end adds its weight.
pub proof fn lemma_weight_sum_push(tokens: Seq<TokenInfo>, token: TokenInfo)
    ensures
        weight_sum(tokens.push(token)) == weight_sum(tokens) + token.weight,
{
    assert(tokens.push(token).drop_last() =~= tokens);
}

/// A leading part of a list weighs no more than the list.
pub proof fn lemma_weight_sum_prefix(tokens: Seq<TokenInfo>, count: int)
    requires
        0 <= count <= tokens.len(),
    ensures
        weight_sum(tokens.take(count)) <= weight_sum(tokens),
    decreases tokens.len(),
{
    if count == tokens.len() {
        assert(tokens.take(count) =~= tokens);
    } else {
        lemma_weight_sum_prefix(tokens.drop_last(), count);
        assert(tokens.drop_last().take(count) =~= tokens.take(count));
    }
}

/// Taking a constituent out takes its weight out.
pub proof fn lemma_weight_sum_remove(tokens: Seq<TokenInfo>, index: int)
    requires
        0 <= index < tokens.len(),
    ensures
        weight_sum(tokens.remove(index)) + tokens[index].weight == weight_sum(tokens),
    decreases tokens.len(),
{
    if index == tokens.len() - 1 {
        assert(tokens.remove(index) =~= tokens.drop_last());
    } else {
        lemma_weight_sum_remove(tokens.drop_last(), index);
        assert(tokens.remove(index).drop_last() =~= tokens.drop_last().remove(index));
        assert(tokens.remove(index).last() == tokens.last());
    }
}

impl BasketState {
    pub const DISCRIMINATOR_SIZE: usize = 8;

    pub const AUTHORITY_SIZE: usize = 32;

    /// An asset, a weight of one byte, and a custody account.
    pub const TOKEN_ENTRY_SIZE: usize = 65;

    /// The length that goes before the list of constituents.
    pub const VEC_PREFIX_SIZE: usize = 4;

    pub const TOTAL_SUPPLY_SIZE: usize = 8;

    pub const BUMP_SIZE: usize = 1;

    pub const MAX_TOKENS_SIZE: usize = 1;

    pub const PAUSED_SIZE: usize = 1;

    pub const REENTRANCY_GUARD_SIZE: usize = 1;

    /// The bytes a stored record takes when it has room for `max_tokens`
    /// constituents: a fixed header of 56 bytes and 65 bytes for each.
    pub open spec fn spec_required_space(max_tokens: nat) -> nat {
        56 + 65 * max_tokens
    }

    /// The bytes a stored record takes when it has room for `max_tokens`
    /// constituents.
    pub fn required_space(max_tokens: usize) -> (space: usize)
        requires
            Self::spec_required_space(max_tokens as nat) <= usize::MAX,
        ensures
            space == Self::spec_required_space(max_tokens as nat),
    {
        Self::DISCRIMINATOR_SIZE + Self::AUTHORITY_SIZE + Self::VEC_PREFIX_SIZE + (
        Self::TOKEN_ENTRY_SIZE * max_tokens) + Self::TOTAL_SUPPLY_SIZE + Self::BUMP_SIZE
            + Self::MAX_TOKENS_SIZE + Self::PAUSED_SIZE + Self::REENTRANCY_GUARD_SIZE
    }

    /// Whether one more constituent of the given weight would take the sum
    /// of the weights above a hundred.
    pub fn exceeds_weight_cap(&self, weight: u8) -> (over: bool)
        ensures
            over == (weight_sum(self.tokens@) + weight > MAX_TOTAL_WEIGHT),
    {
        let mut sum: u16 = weight as u16;
        if sum > MAX_TOTAL_WEIGHT as u16 {
            return true;
        }
        let mut i: usize = 0;
        while i < self.tokens.len()
            invariant
                i <= self.tokens.len(),
                sum == weight_sum(self.tokens@.take(i as int)) + weight,
                sum <= MAX_TOTAL_WEIGHT,
            decreases self.tokens.len() - i,
        {
            proof {
                lemma_weight_sum_push(self.tokens@.take(i as int), self.tokens@[i as int]);
                assert(self.tokens@.take(i as int).push(self.tokens@[i as int])
                    =~= self.tokens@.take(i + 1));
            }
            sum = sum + self.tokens[i].weight as u16;
            if sum > MAX_TOTAL_WEIGHT as u16 {
                proof {
                    lemma_weight_sum_prefix(self.tokens@, i + 1);
                }
                return true;
            }
            i += 1;
        }
        assert(self.tokens@.take(i as int) =~= self.tokens@);
        false
    }

    /// Gives the record back what it had before the operation that holds
    /// the lock began.
    pub(crate) fn roll_back(&mut self, supply_before: u64)
        ensures
            final(self)@ == old(self)@.rolled_back(supply_before),
    {
        self.total_supply = supply_before;
        self.reentrancy_guard = false;
    }

    /// Whether `supplied` accounts are one block for each constituent.
    pub(crate) fn accounts_match(&self, supplied: usize) -> (matching: bool)
        ensures
            matching == (supplied == self.tokens@.len() * ACCOUNTS_PER_LEG),
    {
        match self.tokens.len().checked_mul(ACCOUNTS_PER_LEG) {
            Some(needed) => supplied == needed,
            None => false,
        }
    }

    /// The first place at which the registry holds the asset, if it holds it.
    pub fn position(&self, mint: &Pubkey) -> (found: Option<usize>)
        ensures
            match found {
                Some(index) => first_position(self.tokens@, *mint, index as int),
                None => !holds_mint(self.tokens@, *mint),
            },
    {
        let mut i: usize = 0;
        while i < self.tokens.len()
            invariant
                i <= self.tokens.len(),
                forall|j: int| 0 <= j < i ==> (#[trigger] self.tokens@[j]).mint != *mint,
            decreases self.tokens.len() - i,
        {
            if self.tokens[i].mint == *mint {
                return Some(i);
            }
            i += 1;
        }
        None
    }
}

impl Default for TokenInfo {
    fn default() -> (token: TokenInfo)
        ensures
            token.weight == 0,
            token.mint.is_zero(),
            token.token_account.is_zero(),
    {
        TokenInfo { mint: Pubkey::default(), weight: 0, token_account: Pubkey::default() }
    }
}

impl Default for BasketState {
    /// An empty record: no constituents, nothing outstanding, nothing set.
    fn default() -> (basket: BasketState)
        ensures
            basket.tokens@.len() == 0,
            basket.total_supply == 0,
            basket.bump == 0,
            basket.max_tokens == 0,
            !basket.paused,
            !basket.reentrancy_guard,
            basket.authority.is_zero(),
            basket@.wf(),
    {
        BasketState {
            authority: Pubkey::default(),
            tokens: Vec::new(),
            total_supply: 0,
            bump: 0,
            max_tokens: 0,
            paused: false,
            reentrancy_guard: false,
        }
    }
}

} // verus!
