//! Deposits, step by step.  The host moves the funding asset, mints the
//! claim tokens, reads custody accounts and calls the venue; `deposit` says
//! which of these comes next and judges what came of it.

use crate::error::BasketError;
use crate::jupiter::RouteSwapParams;
use crate::math::{ACCOUNTS_PER_LEG, MINIMUM_DEPOSIT};
use crate::pubkey::Pubkey;
use crate::state::{BasketState, BasketView};
use crate::swap::{
    check_custody, custody_check, has_leg_block, leg_instruction, swap_instruction, AccountMeta,
    CustodyAccount, SwapInstruction, SwapInstructionView, CUSTODY_SLOT,
};
use vstd::prelude::*;

verus! {

/// What a deposit works on: the vault record, the vault's own address, and
/// the accounts supplied for the venue, twelve for each leg.
#[derive(Clone, Debug)]
pub struct Deposit {
    pub basket: BasketState,
    /// The address of the vault, which must control every custody account.
    pub basket_key: Pubkey,
    pub remaining_accounts: Vec<AccountMeta>,
}

/// What a deposit works on, as a mathematical value.
pub struct DepositView {
    pub basket: BasketView,
    pub basket_key: Pubkey,
    pub remaining_accounts: Seq<AccountMeta>,
}

impl View for Deposit {
    type V = DepositView;

    open spec fn view(&self) -> DepositView {
        DepositView {
            basket: self.basket@,
            basket_key: self.basket_key,
            remaining_accounts: self.remaining_accounts@,
        }
    }
}

impl DepositView {
    /// The same accounts around another state of the vault record.
    pub open spec fn with_basket(self, basket: BasketView) -> DepositView {
        DepositView { basket, ..self }
    }
}

/// What the depositor asks for.
pub struct DepositArgs {
    /// The quantity of the funding asset to deposit.
    pub amount: u64,
    /// The quote the venue is to execute.
    pub jupiter_quote: [u8; 32],
    /// The slippage the depositor tolerates, in basis points.
    pub slippage_bps: u16,
    /// For each leg, the least the leg must bring in.
    pub minimum_token_amounts: Seq<u64>,
}

/// How far a deposit has come.
#[derive(Clone, Copy, Debug, PartialEq, Eq, Structural)]
pub enum DepositStep {
    /// Nothing has been done.
    Start,
    /// The lock is held; the funding asset is being moved into the vault.
    Funding,
    /// The claim tokens are counted as issued and are being minted.
    Minting,
    /// The custody account of a leg is being read.
    Custody { leg: usize },
    /// The venue is working on a leg, whose custody account held `baseline`
    /// before.
    Swapping { leg: usize, baseline: u64 },
    /// The deposit went through.
    Done,
    /// The deposit was given up.
    Failed,
}

/// How far a deposit has come, and what it takes to undo it.
#[derive(Clone, Copy, Debug, PartialEq, Eq, Structural)]
pub struct DepositProgress {
    pub step: DepositStep,
    /// The claim tokens that were outstanding when the deposit began.
    pub supply_before: u64,
}

/// What the host reports back to a deposit.
#[derive(Clone, Copy, Debug)]
pub enum DepositEvent {
    /// The depositor has submitted the deposit.
    Begin,
    /// The funding asset has been moved into the vault.
    Transferred,
    /// The claim tokens have been minted to the depositor.
    Minted,
    /// The custody account of the current leg has been read.
    Custody(CustodyAccount),
    /// The venue has returned, and the custody account of the current leg
    /// now holds `balance`.
    Swapped { balance: u64 },
}

/// What a deposit asks the host to do next.
#[derive(Clone, Debug)]
pub enum DepositAction {
    /// Move `amount` of the funding asset from the depositor into the vault.
    Transfer { amount: u64 },
    /// Mint `amount` claim tokens to the depositor.
    Mint { amount: u64 },
    /// Read the custody account of a leg, which is the supplied account at
    /// place `account`.
    ReadCustody { leg: usize, account: usize },
    /// Issue the call to the venue over the accounts of a leg, then read the
    /// leg's custody account again.
    Swap { leg: usize, instruction: SwapInstruction },
    /// Nothing more: the deposit went through.
    Complete,
    /// Give the deposit up and discard whatever it did.
    Abort(BasketError),
    /// The report does not answer what was asked; nothing has changed.
    Unexpected,
}

/// What a deposit asks the host to do next, as a mathematical value.
pub enum DepositActionView {
    Transfer { amount: u64 },
    Mint { amount: u64 },
    ReadCustody { leg: usize, account: usize },
    Swap { leg: usize, instruction: SwapInstructionView },
    Complete,
    Abort(BasketError),
    Unexpected,
}

impl View for DepositAction {
    type V = DepositActionView;

    open spec fn view(&self) -> DepositActionView {
        match *self {
            DepositAction::Transfer { amount } => DepositActionView::Transfer { amount },
            DepositAction::Mint { amount } => DepositActionView::Mint { amount },
            DepositAction::ReadCustody { leg, account } => DepositActionView::ReadCustody {
                leg,
                account,
            },
            DepositAction::Swap { leg, instruction } => DepositActionView::Swap {
                leg,
                instruction: instruction@,
            },
            DepositAction::Complete => DepositActionView::Complete,
            DepositAction::Abort(error) => DepositActionView::Abort(error),
            DepositAction::Unexpected => DepositActionView::Unexpected,
        }
    }
}

/// A step of a deposit: the vault record after it, how far the deposit has
/// come, and what the host is to do next.
pub struct DepositOutcome {
    pub basket: BasketView,
    pub progress: DepositProgress,
    pub action: DepositActionView,
}

impl DepositProgress {
    /// A deposit of which nothing has been done.
    pub open spec fn spec_start() -> DepositProgress {
        DepositProgress { step: DepositStep::Start, supply_before: 0 }
    }

    /// A deposit of which nothing has been done.
    #[verifier::when_used_as_spec(spec_start)]
    pub fn start() -> (progress: DepositProgress)
        ensures
            progress == Self::spec_start(),
    {
        DepositProgress { step: DepositStep::Start, supply_before: 0 }
    }

    /// The same deposit at another step.
    pub open spec fn at(self, step: DepositStep) -> DepositProgress {
        DepositProgress { step, ..self }
    }

    /// Whether the deposit is under way: begun, and neither through nor given up.
    pub open spec fn in_flight(self) -> bool {
        !(self.step is Start) && !(self.step is Done) && !(self.step is Failed)
    }
}

/// Whether the lists that go by leg have one entry, and the accounts one
/// block, for each constituent.
pub open spec fn deposit_legs_match(ctx: DepositView, args: DepositArgs) -> bool {
    &&& args.minimum_token_amounts.len() == ctx.basket.tokens.len()
    &&& ctx.remaining_accounts.len() == ctx.basket.tokens.len() * ACCOUNTS_PER_LEG
}

/// The report does not answer what was asked: nothing changes.
pub open spec fn deposit_unexpected(ctx: DepositView, progress: DepositProgress) -> DepositOutcome {
    DepositOutcome { basket: ctx.basket, progress, action: DepositActionView::Unexpected }
}

/// The deposit is refused before anything was done: nothing changes.
pub open spec fn deposit_refused(ctx: DepositView, error: BasketError) -> DepositOutcome {
    DepositOutcome {
        basket: ctx.basket,
        progress: DepositProgress::spec_start().at(DepositStep::Failed),
        action: DepositActionView::Abort(error),
    }
}

/// The deposit is given up under way: the vault record goes back to what it
/// was when the deposit began.
pub open spec fn deposit_aborted(
    ctx: DepositView,
    progress: DepositProgress,
    error: BasketError,
) -> DepositOutcome {
    DepositOutcome {
        basket: ctx.basket.rolled_back(progress.supply_before),
        progress: progress.at(DepositStep::Failed),
        action: DepositActionView::Abort(error),
    }
}

/// What giving a deposit up from outside comes to.  A deposit that is under
/// way is undone: the vault record goes back to what it was when the
/// deposit began.  One that has not begun, is through, or was given up
/// already is left as it is.
pub open spec fn deposit_abandoned(ctx: DepositView, progress: DepositProgress) -> (
    BasketView,
    DepositProgress,
) {
    if progress.in_flight() {
        (ctx.basket.rolled_back(progress.supply_before), progress.at(DepositStep::Failed))
    } else {
        (ctx.basket, progress)
    }
}

/// The checks at the door, in their order, and then the lock.
pub open spec fn deposit_begin(ctx: DepositView, args: DepositArgs) -> DepositOutcome {
    if ctx.basket.paused {
        deposit_refused(ctx, BasketError::ProgramPaused)
    } else if ctx.basket.reentrancy_guard {
        deposit_refused(ctx, BasketError::ReentrancyDetected)
    } else if args.amount < MINIMUM_DEPOSIT {
        deposit_refused(ctx, BasketError::InsufficientDeposit)
    } else if args.minimum_token_amounts.len() != ctx.basket.tokens.len() {
        deposit_refused(ctx, BasketError::InvalidTokenCount)
    } else if ctx.remaining_accounts.len() != ctx.basket.tokens.len() * ACCOUNTS_PER_LEG {
        deposit_refused(ctx, BasketError::InvalidAccountCount)
    } else {
        DepositOutcome {
            basket: ctx.basket.with_lock(true),
            progress: DepositProgress {
                step: DepositStep::Funding,
                supply_before: ctx.basket.total_supply,
            },
            action: DepositActionView::Transfer { amount: args.amount },
        }
    }
}

/// The funding asset is in: the claim tokens are counted as issued, and
/// then minted.
pub open spec fn deposit_funded(
    ctx: DepositView,
    args: DepositArgs,
    progress: DepositProgress,
) -> DepositOutcome {
    if ctx.basket.total_supply + args.amount > u64::MAX {
        deposit_aborted(ctx, progress, BasketError::MathOverflow)
    } else {
        DepositOutcome {
            basket: ctx.basket.with_supply((ctx.basket.total_supply + args.amount) as u64),
            progress: progress.at(DepositStep::Minting),
            action: DepositActionView::Mint { amount: args.amount },
        }
    }
}

/// On to the given leg, or, after the last, the lock is released and the
/// deposit is through.
pub open spec fn deposit_next_leg(
    ctx: DepositView,
    progress: DepositProgress,
    leg: int,
) -> DepositOutcome {
    if leg < ctx.basket.tokens.len() {
        DepositOutcome {
            basket: ctx.basket,
            progress: progress.at(DepositStep::Custody { leg: leg as usize }),
            action: DepositActionView::ReadCustody {
                leg: leg as usize,
                account: (leg * ACCOUNTS_PER_LEG + CUSTODY_SLOT) as usize,
            },
        }
    } else {
        DepositOutcome {
            basket: ctx.basket.with_lock(false),
            progress: progress.at(DepositStep::Done),
            action: DepositActionView::Complete,
        }
    }
}

/// The custody account of a leg has been read: it is checked, and what it
/// holds is offered to the venue.
pub open spec fn deposit_leg_opened(
    ctx: DepositView,
    args: DepositArgs,
    progress: DepositProgress,
    leg: int,
    custody: CustodyAccount,
) -> DepositOutcome {
    match custody_check(custody, ctx.basket.tokens[leg], ctx.basket_key) {
        Err(error) => deposit_aborted(ctx, progress, error),
        Ok(_) => DepositOutcome {
            basket: ctx.basket,
            progress: progress.at(
                DepositStep::Swapping { leg: leg as usize, baseline: custody.amount },
            ),
            action: DepositActionView::Swap {
                leg: leg as usize,
                instruction: leg_instruction(
                    ctx.remaining_accounts,
                    leg,
                    RouteSwapParams {
                        in_amount: custody.amount,
                        quote_id: args.jupiter_quote,
                        slippage_bps: args.slippage_bps,
                    },
                ),
            },
        },
    }
}

/// The venue has returned from a leg: what the custody account gained is
/// measured and held against the least the depositor accepts.
pub open spec fn deposit_leg_closed(
    ctx: DepositView,
    args: DepositArgs,
    progress: DepositProgress,
    leg: int,
    baseline: u64,
    balance: u64,
) -> DepositOutcome {
    if balance < baseline {
        deposit_aborted(ctx, progress, BasketError::MathOverflow)
    } else if balance - baseline < args.minimum_token_amounts[leg] {
        deposit_aborted(ctx, progress, BasketError::SlippageExceeded)
    } else {
        deposit_next_leg(ctx, progress, leg + 1)
    }
}

/// One step of a deposit: what follows from a state of the vault record,
/// the depositor's request, how far the deposit has come, and what the host
/// reports.
pub open spec fn deposit_step(
    ctx: DepositView,
    args: DepositArgs,
    progress: DepositProgress,
    event: DepositEvent,
) -> DepositOutcome {
    match (progress.step, event) {
        (DepositStep::Start, DepositEvent::Begin) => deposit_begin(ctx, args),
        (DepositStep::Funding, DepositEvent::Transferred) => deposit_funded(ctx, args, progress),
        (DepositStep::Minting, DepositEvent::Minted) => if deposit_legs_match(ctx, args) {
            deposit_next_leg(ctx, progress, 0)
        } else {
            deposit_unexpected(ctx, progress)
        },
        (DepositStep::Custody { leg }, DepositEvent::Custody(custody)) => if deposit_legs_match(
            ctx,
            args,
        ) && leg < ctx.basket.tokens.len() {
            deposit_leg_opened(ctx, args, progress, leg as int, custody)
        } else {
            deposit_unexpected(ctx, progress)
        },
        (DepositStep::Swapping { leg, baseline }, DepositEvent::Swapped { balance }) =>
            if deposit_legs_match(ctx, args) && leg < ctx.basket.tokens.len() {
            deposit_leg_closed(ctx, args, progress, leg as int, baseline, balance)
        } else {
            deposit_unexpected(ctx, progress)
        },
        _ => deposit_unexpected(ctx, progress),
    }
}

fn legs_match(ctx: &Deposit, minimum_token_amounts: &Vec<u64>) -> (matching: bool)
    ensures
        matching == (minimum_token_amounts@.len() == ctx.basket.tokens@.len()
            && ctx.remaining_accounts@.len() == ctx.basket.tokens@.len() * ACCOUNTS_PER_LEG),
        ctx.remaining_accounts@.len() <= usize::MAX,
{
    let supplied: usize = ctx.remaining_accounts.len();
    if minimum_token_amounts.len() != ctx.basket.tokens.len() {
        return false;
    }
    ctx.basket.accounts_match(supplied)
}

fn abort(ctx: &mut Deposit, progress: DepositProgress, error: BasketError) -> (next: (
    DepositProgress,
    DepositAction,
))
    ensures
        final(ctx)@ == old(ctx)@.with_basket(deposit_aborted(old(ctx)@, progress, error).basket),
        next.0 == deposit_aborted(old(ctx)@, progress, error).progress,
        next.1@ == deposit_aborted(old(ctx)@, progress, error).action,
{
    ctx.basket.roll_back(progress.supply_before);
    (
        DepositProgress { step: DepositStep::Failed, supply_before: progress.supply_before },
        DepositAction::Abort(error),
    )
}

fn refuse(error: BasketError) -> (next: (DepositProgress, DepositAction))
    ensures
        next.0 == DepositProgress::spec_start().at(DepositStep::Failed),
        next.1@ == DepositActionView::Abort(error),
{
    (DepositProgress { step: DepositStep::Failed, supply_before: 0 }, DepositAction::Abort(error))
}

fn begin(
    ctx: &mut Deposit,
    amount: u64,
    jupiter_quote: [u8; 32],
    slippage_bps: u16,
    minimum_token_amounts: &Vec<u64>,
) -> (next: (DepositProgress, DepositAction))
    ensures
        ({
            let out = deposit_begin(
                old(ctx)@,
                deposit_args(amount, jupiter_quote, slippage_bps, minimum_token_amounts@),
            );
            &&& final(ctx)@ == old(ctx)@.with_basket(out.basket)
            &&& next.0 == out.progress
            &&& next.1@ == out.action
        }),
{
    if ctx.basket.paused {
        return refuse(BasketError::ProgramPaused);
    }
    if ctx.basket.reentrancy_guard {
        return refuse(BasketError::ReentrancyDetected);
    }
    if amount < MINIMUM_DEPOSIT {
        return refuse(BasketError::InsufficientDeposit);
    }
    if minimum_token_amounts.len() != ctx.basket.tokens.len() {
        return refuse(BasketError::InvalidTokenCount);
    }
    if !legs_match(ctx, minimum_token_amounts) {
        return refuse(BasketError::InvalidAccountCount);
    }
    ctx.basket.reentrancy_guard = true;
    (
        DepositProgress { step: DepositStep::Funding, supply_before: ctx.basket.total_supply },
        DepositAction::Transfer { amount },
    )
}

fn next_leg(ctx: &mut Deposit, progress: DepositProgress, leg: usize) -> (next: (
    DepositProgress,
    DepositAction,
))
    requires
        old(ctx).remaining_accounts@.len() == old(ctx).basket.tokens@.len() * ACCOUNTS_PER_LEG,
        old(ctx).remaining_accounts@.len() <= usize::MAX,
        leg <= old(ctx).basket.tokens@.len(),
    ensures
        ({
            let out = deposit_next_leg(old(ctx)@, progress, leg as int);
            &&& final(ctx)@ == old(ctx)@.with_basket(out.basket)
            &&& next.0 == out.progress
            &&& next.1@ == out.action
        }),
{
    if leg < ctx.basket.tokens.len() {
        assert(leg * ACCOUNTS_PER_LEG + CUSTODY_SLOT < ctx.remaining_accounts@.len())
            by (nonlinear_arith)
            requires
                leg < ctx.basket.tokens@.len(),
                ctx.remaining_accounts@.len() == ctx.basket.tokens@.len() * ACCOUNTS_PER_LEG,
                ACCOUNTS_PER_LEG == 12,
                CUSTODY_SLOT == 1,
        ;
        (
            DepositProgress {
                step: DepositStep::Custody { leg },
                supply_before: progress.supply_before,
            },
            DepositAction::ReadCustody { leg, account: leg * ACCOUNTS_PER_LEG + CUSTODY_SLOT },
        )
    } else {
        ctx.basket.reentrancy_guard = false;
        (
            DepositProgress { step: DepositStep::Done, supply_before: progress.supply_before },
            DepositAction::Complete,
        )
    }
}

/// Gives a deposit up from outside, as a host does that could not do what
/// it was asked to: the lock is released and the claim tokens that were
/// counted as issued are no longer counted.  Nothing happens to a deposit
/// that is not under way.
pub fn abandon_deposit(ctx: &mut Deposit, progress: DepositProgress) -> (after: DepositProgress)
    ensures
        final(ctx)@ == old(ctx)@.with_basket(deposit_abandoned(old(ctx)@, progress).0),
        after == deposit_abandoned(old(ctx)@, progress).1,
        old(ctx).basket@.wf() ==> final(ctx).basket@.wf(),
{
    match progress.step {
        DepositStep::Start | DepositStep::Done | DepositStep::Failed => progress,
        _ => {
            ctx.basket.roll_back(progress.supply_before);
            DepositProgress { step: DepositStep::Failed, supply_before: progress.supply_before }
        },
    }
}

/// The depositor's request as one value.
pub open spec fn deposit_args(
    amount: u64,
    jupiter_quote: [u8; 32],
    slippage_bps: u16,
    minimum_token_amounts: Seq<u64>,
) -> DepositArgs {
    DepositArgs { amount, jupiter_quote, slippage_bps, minimum_token_amounts }
}

/// Takes a deposit one step further.
///
/// The host calls this with `DepositProgress::start()` and
/// `DepositEvent::Begin`, does what the returned action asks, and calls
/// again with the returned progress and a report of what it did, until the
/// action is `Complete` or `Abort`.  The request stays the same throughout.
///
/// The vault record in `ctx` is changed as the step demands: the lock is
/// taken when the deposit is admitted and released when it is through, the
/// claim tokens are counted as issued once the funding asset is in, and on
/// `Abort` the record is as it was when the deposit began.  What the step
/// does is `deposit_step`, exactly.
pub fn deposit(
    ctx: &mut Deposit,
    amount: u64,
    jupiter_quote: [u8; 32],
    slippage_bps: u16,
    minimum_token_amounts: &Vec<u64>,
    progress: DepositProgress,
    event: DepositEvent,
) -> (next: (DepositProgress, DepositAction))
    ensures
        ({
            let args = deposit_args(amount, jupiter_quote, slippage_bps, minimum_token_amounts@);
            let out = deposit_step(old(ctx)@, args, progress, event);
            &&& final(ctx)@ == old(ctx)@.with_basket(out.basket)
            &&& next.0 == out.progress
            &&& next.1@ == out.action
        }),
        old(ctx).basket@.wf() ==> final(ctx).basket@.wf(),
{
    match (progress.step, event) {
        (DepositStep::Start, DepositEvent::Begin) => begin(
            ctx,
            amount,
            jupiter_quote,
            slippage_bps,
            minimum_token_amounts,
        ),
        (DepositStep::Funding, DepositEvent::Transferred) => {
            match ctx.basket.total_supply.checked_add(amount) {
                None => abort(ctx, progress, BasketError::MathOverflow),
                Some(supply) => {
                    ctx.basket.total_supply = supply;
                    (
                        DepositProgress {
                            step: DepositStep::Minting,
                            supply_before: progress.supply_before,
                        },
                        DepositAction::Mint { amount },
                    )
                },
            }
        },
        (DepositStep::Minting, DepositEvent::Minted) => {
            if legs_match(ctx, minimum_token_amounts) {
                next_leg(ctx, progress, 0)
            } else {
                (progress, DepositAction::Unexpected)
            }
        },
        (DepositStep::Custody { leg }, DepositEvent::Custody(custody)) => {
            if legs_match(ctx, minimum_token_amounts) && leg < ctx.basket.tokens.len() {
                match check_custody(&custody, &ctx.basket.tokens[leg], &ctx.basket_key) {
                    Err(error) => abort(ctx, progress, error),
                    Ok(_) => {
                        let params = RouteSwapParams {
                            in_amount: custody.amount,
                            quote_id: jupiter_quote,
                            slippage_bps,
                        };
                        assert(has_leg_block(ctx.remaining_accounts@, leg as int))
                            by (nonlinear_arith)
                            requires
                                0 <= leg < ctx.basket.tokens@.len(),
                                ctx.remaining_accounts@.len() == ctx.basket.tokens@.len()
                                    * ACCOUNTS_PER_LEG,
                                has_leg_block(ctx.remaining_accounts@, leg as int) == (0 <= leg
                                    && (leg + 1) * ACCOUNTS_PER_LEG
                                    <= ctx.remaining_accounts@.len()),
                        ;
                        let instruction = swap_instruction(
                            &ctx.remaining_accounts,
                            leg,
                            &params,
                        ).unwrap();
                        (
                            DepositProgress {
                                step: DepositStep::Swapping { leg, baseline: custody.amount },
                                supply_before: progress.supply_before,
                            },
                            DepositAction::Swap { leg, instruction },
                        )
                    },
                }
            } else {
                (progress, DepositAction::Unexpected)
            }
        },
        (DepositStep::Swapping { leg, baseline }, DepositEvent::Swapped { balance }) => {
            if legs_match(ctx, minimum_token_amounts) && leg < ctx.basket.tokens.len() {
                match balance.checked_sub(baseline) {
                    None => abort(ctx, progress, BasketError::MathOverflow),
                    Some(gained) => {
                        if gained < minimum_token_amounts[leg] {
                            abort(ctx, progress, BasketError::SlippageExceeded)
                        } else {
                            next_leg(ctx, progress, leg + 1)
                        }
                    },
                }
            } else {
                (progress, DepositAction::Unexpected)
            }
        },
        _ => (progress, DepositAction::Unexpected),
    }
}

} // verus!
