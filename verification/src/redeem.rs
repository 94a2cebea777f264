//! Redemptions, step by step.  The host burns the claim tokens, reads
//! custody accounts, calls the venue and pays out; `redeem` says which of
//! these comes next and judges what came of it.

use crate::error::BasketError;
use crate::jupiter::RouteSwapParams;
use crate::math::{leg_withdraw_qty, ratio_of, redemption_ratio, share_of, ACCOUNTS_PER_LEG};
use crate::pubkey::Pubkey;
use crate::state::{BasketState, BasketView};
use crate::swap::{
    check_custody, custody_check, has_leg_block, leg_instruction, swap_instruction, AccountMeta,
    CustodyAccount, SwapInstruction, SwapInstructionView, CUSTODY_SLOT,
};
use vstd::prelude::*;

verus! {

/// What a redemption works on: the vault record, the vault's own address,
/// and the accounts supplied for the venue, twelve for each leg.
#[derive(Clone, Debug)]
pub struct Redeem {
    pub basket: BasketState,
    /// The address of the vault, which must control every custody account.
    pub basket_key: Pubkey,
    pub remaining_accounts: Vec<AccountMeta>,
}

/// What a redemption works on, as a mathematical value.
pub struct RedeemView {
    pub basket: BasketView,
    pub basket_key: Pubkey,
    pub remaining_accounts: Seq<AccountMeta>,
}

impl View for Redeem {
    type V = RedeemView;

    open spec fn view(&self) -> RedeemView {
        RedeemView {
            basket: self.basket@,
            basket_key: self.basket_key,
            remaining_accounts: self.remaining_accounts@,
        }
    }
}

impl RedeemView {
    /// The same accounts around another state of the vault record.
    pub open spec fn with_basket(self, basket: BasketView) -> RedeemView {
        RedeemView { basket, ..self }
    }

    /// Whether the accounts are one block for each constituent.
    pub open spec fn legs_match(self) -> bool {
        self.remaining_accounts.len() == self.basket.tokens.len() * ACCOUNTS_PER_LEG
    }
}

/// What the holder asks for.
pub struct RedeemArgs {
    /// The claim tokens to redeem.
    pub amount: u64,
    /// The quote the venue is to execute.
    pub jupiter_quote: [u8; 32],
    /// The slippage the holder tolerates, in basis points.
    pub slippage_bps: u16,
    /// The least of the funding asset that all legs together must bring.
    pub minimum_sol_amount: u64,
}

/// How far a redemption has come.
#[derive(Clone, Copy, Debug, PartialEq, Eq, Structural)]
pub enum RedeemStep {
    /// Nothing has been done.
    Start,
    /// The lock is held and the claim tokens are counted as gone; they are
    /// being burned.
    Burning,
    /// The custody account of a leg is being read; the legs before it
    /// brought `received`.
    Custody { leg: usize, received: u64 },
    /// The venue is working on a leg; the legs before it brought `received`.
    Swapping { leg: usize, received: u64 },
    /// All legs are through and the proceeds are being paid out.
    Paying,
    /// The redemption went through.
    Done,
    /// The redemption was given up.
    Failed,
}

/// How far a redemption has come, what it goes by, and what it takes to
/// undo it.
#[derive(Clone, Copy, Debug, PartialEq, Eq, Structural)]
pub struct RedeemProgress {
    pub step: RedeemStep,
    /// The claim tokens that were outstanding when the redemption began.
    pub supply_before: u64,
    /// The part of the outstanding claim tokens that is redeemed, scaled by
    /// `MAGNIFIER`.
    pub ratio: u128,
    /// What the vault held of the funding asset before the first leg.
    pub baseline: u64,
}

/// What the host reports back to a redemption.
#[derive(Clone, Copy, Debug)]
pub enum RedeemEvent {
    /// The holder has submitted the redemption.
    Begin,
    /// The claim tokens have been burned, and the vault holds
    /// `vault_balance` of the funding asset.
    Burned { vault_balance: u64 },
    /// The custody account of the current leg has been read.
    Custody(CustodyAccount),
    /// The venue has returned, and the vault now holds `vault_balance` of
    /// the funding asset.
    Swapped { vault_balance: u64 },
    /// The proceeds have been paid to the holder.
    Paid,
}

/// What a redemption asks the host to do next.
#[derive(Clone, Debug)]
pub enum RedeemAction {
    /// Burn `amount` claim tokens of the holder, then read what the vault
    /// holds of the funding asset.
    Burn { amount: u64 },
    /// Read the custody account of a leg, which is the supplied account at
    /// place `account`.
    ReadCustody { leg: usize, account: usize },
    /// Issue the call to the venue over the accounts of a leg, then read
    /// what the vault holds of the funding asset.
    Swap { leg: usize, instruction: SwapInstruction },
    /// Pay `amount` of the funding asset from the vault to the holder.
    Pay { amount: u64 },
    /// Nothing more: the redemption went through.
    Complete,
    /// Give the redemption up and discard whatever it did.
    Abort(BasketError),
    /// The report does not answer what was asked; nothing has changed.
    Unexpected,
}

/// What a redemption asks the host to do next, as a mathematical value.
pub enum RedeemActionView {
    Burn { amount: u64 },
    ReadCustody { leg: usize, account: usize },
    Swap { leg: usize, instruction: SwapInstructionView },
    Pay { amount: u64 },
    Complete,
    Abort(BasketError),
    Unexpected,
}

impl View for RedeemAction {
    type V = RedeemActionView;

    open spec fn view(&self) -> RedeemActionView {
        match *self {
            RedeemAction::Burn { amount } => RedeemActionView::Burn { amount },
            RedeemAction::ReadCustody { leg, account } => RedeemActionView::ReadCustody {
                leg,
                account,
            },
            RedeemAction::Swap { leg, instruction } => RedeemActionView::Swap {
                leg,
                instruction: instruction@,
            },
            RedeemAction::Pay { amount } => RedeemActionView::Pay { amount },
            RedeemAction::Complete => RedeemActionView::Complete,
            RedeemAction::Abort(error) => RedeemActionView::Abort(error),
            RedeemAction::Unexpected => RedeemActionView::Unexpected,
        }
    }
}

/// A step of a redemption: the vault record after it, how far the
/// redemption has come, and what the host is to do next.
pub struct RedeemOutcome {
    pub basket: BasketView,
    pub progress: RedeemProgress,
    pub action: RedeemActionView,
}

impl RedeemProgress {
    /// A redemption of which nothing has been done.
    pub open spec fn spec_start() -> RedeemProgress {
        RedeemProgress { step: RedeemStep::Start, supply_before: 0, ratio: 0, baseline: 0 }
    }

    /// A redemption of which nothing has been done.
    #[verifier::when_used_as_spec(spec_start)]
    pub fn start() -> (progress: RedeemProgress)
        ensures
            progress == Self::spec_start(),
    {
        RedeemProgress { step: RedeemStep::Start, supply_before: 0, ratio: 0, baseline: 0 }
    }

    /// The same redemption at another step.
    pub open spec fn at(self, step: RedeemStep) -> RedeemProgress {
        RedeemProgress { step, ..self }
    }

    /// Whether the redemption is under way: begun, and neither through nor
    /// given up.
    pub open spec fn in_flight(self) -> bool {
        !(self.step is Start) && !(self.step is Done) && !(self.step is Failed)
    }

    fn moved_to(self, step: RedeemStep) -> (progress: RedeemProgress)
        ensures
            progress == self.at(step),
    {
        RedeemProgress {
            step,
            supply_before: self.supply_before,
            ratio: self.ratio,
            baseline: self.baseline,
        }
    }
}

/// The holder's request as one value.
pub open spec fn redeem_args(
    amount: u64,
    jupiter_quote: [u8; 32],
    slippage_bps: u16,
    minimum_sol_amount: u64,
) -> RedeemArgs {
    RedeemArgs { amount, jupiter_quote, slippage_bps, minimum_sol_amount }
}

/// The report does not answer what was asked: nothing changes.
pub open spec fn redeem_unexpected(ctx: RedeemView, progress: RedeemProgress) -> RedeemOutcome {
    RedeemOutcome { basket: ctx.basket, progress, action: RedeemActionView::Unexpected }
}

/// The redemption is refused before anything was done: nothing changes.
pub open spec fn redeem_refused(ctx: RedeemView, error: BasketError) -> RedeemOutcome {
    RedeemOutcome {
        basket: ctx.basket,
        progress: RedeemProgress::spec_start().at(RedeemStep::Failed),
        action: RedeemActionView::Abort(error),
    }
}

/// The redemption is given up under way: the vault record goes back to what
/// it was when the redemption began.
pub open spec fn redeem_aborted(
    ctx: RedeemView,
    progress: RedeemProgress,
    error: BasketError,
) -> RedeemOutcome {
    RedeemOutcome {
        basket: ctx.basket.rolled_back(progress.supply_before),
        progress: progress.at(RedeemStep::Failed),
        action: RedeemActionView::Abort(error),
    }
}

/// What giving a redemption up from outside comes to.  A redemption that
/// is under way is undone: the vault record goes back to what it was when
/// the redemption began.  One that has not begun, is through, or was given
/// up already is left as it is.
pub open spec fn redeem_abandoned(ctx: RedeemView, progress: RedeemProgress) -> (
    BasketView,
    RedeemProgress,
) {
    if progress.in_flight() {
        (ctx.basket.rolled_back(progress.supply_before), progress.at(RedeemStep::Failed))
    } else {
        (ctx.basket, progress)
    }
}

/// The checks at the door, in their order; then the lock is taken, the
/// ratio is fixed, and the claim tokens are counted as gone before they are
/// burned.
pub open spec fn redeem_begin(ctx: RedeemView, args: RedeemArgs) -> RedeemOutcome {
    if ctx.basket.paused {
        redeem_refused(ctx, BasketError::ProgramPaused)
    } else if ctx.basket.reentrancy_guard {
        redeem_refused(ctx, BasketError::ReentrancyDetected)
    } else if !ctx.legs_match() {
        redeem_refused(ctx, BasketError::InvalidAccountCount)
    } else if ctx.basket.total_supply == 0 {
        redeem_refused(ctx, BasketError::MathOverflow)
    } else if args.amount > ctx.basket.total_supply {
        redeem_refused(ctx, BasketError::MathOverflow)
    } else {
        RedeemOutcome {
            basket: ctx.basket.with_lock(true).with_supply(
                (ctx.basket.total_supply - args.amount) as u64,
            ),
            progress: RedeemProgress {
                step: RedeemStep::Burning,
                supply_before: ctx.basket.total_supply,
                ratio: ratio_of(args.amount as nat, ctx.basket.total_supply as nat) as u128,
                baseline: 0,
            },
            action: RedeemActionView::Burn { amount: args.amount },
        }
    }
}

/// On to the given leg; or, after the last, the proceeds are held against
/// the least the holder accepts, and paid out.
pub open spec fn redeem_next_leg(
    ctx: RedeemView,
    minimum_sol_amount: u64,
    progress: RedeemProgress,
    leg: int,
    received: u64,
) -> RedeemOutcome {
    if leg < ctx.basket.tokens.len() {
        RedeemOutcome {
            basket: ctx.basket,
            progress: progress.at(RedeemStep::Custody { leg: leg as usize, received }),
            action: RedeemActionView::ReadCustody {
                leg: leg as usize,
                account: (leg * ACCOUNTS_PER_LEG + CUSTODY_SLOT) as usize,
            },
        }
    } else if received < minimum_sol_amount {
        redeem_aborted(ctx, progress, BasketError::SlippageExceeded)
    } else {
        RedeemOutcome {
            basket: ctx.basket,
            progress: progress.at(RedeemStep::Paying),
            action: RedeemActionView::Pay { amount: received },
        }
    }
}

/// The custody account of a leg has been read: it is checked, and the
/// redeemed part of what it holds is offered to the venue.
pub open spec fn redeem_leg_opened(
    ctx: RedeemView,
    args: RedeemArgs,
    progress: RedeemProgress,
    leg: int,
    received: u64,
    custody: CustodyAccount,
) -> RedeemOutcome {
    match custody_check(custody, ctx.basket.tokens[leg], ctx.basket_key) {
        Err(error) => redeem_aborted(ctx, progress, error),
        Ok(_) => if share_of(custody.amount as nat, progress.ratio as nat) > u64::MAX {
            redeem_aborted(ctx, progress, BasketError::MathOverflow)
        } else {
            RedeemOutcome {
                basket: ctx.basket,
                progress: progress.at(RedeemStep::Swapping { leg: leg as usize, received }),
                action: RedeemActionView::Swap {
                    leg: leg as usize,
                    instruction: leg_instruction(
                        ctx.remaining_accounts,
                        leg,
                        RouteSwapParams {
                            in_amount: share_of(
                                custody.amount as nat,
                                progress.ratio as nat,
                            ) as u64,
                            quote_id: args.jupiter_quote,
                            slippage_bps: args.slippage_bps,
                        },
                    ),
                },
            }
        },
    }
}

/// The venue has returned from a leg: what the vault gained of the funding
/// asset since the legs began is measured.
pub open spec fn redeem_leg_closed(
    ctx: RedeemView,
    args: RedeemArgs,
    progress: RedeemProgress,
    leg: int,
    received: u64,
    vault_balance: u64,
) -> RedeemOutcome {
    if progress.baseline + received > u64::MAX {
        redeem_aborted(ctx, progress, BasketError::MathOverflow)
    } else if vault_balance < progress.baseline + received {
        redeem_aborted(ctx, progress, BasketError::MathOverflow)
    } else {
        redeem_next_leg(
            ctx,
            args.minimum_sol_amount,
            progress,
            leg + 1,
            (vault_balance - progress.baseline) as u64,
        )
    }
}

/// One step of a redemption: what follows from a state of the vault record,
/// the holder's request, how far the redemption has come, and what the host
/// reports.
pub open spec fn redeem_step(
    ctx: RedeemView,
    args: RedeemArgs,
    progress: RedeemProgress,
    event: RedeemEvent,
) -> RedeemOutcome {
    match (progress.step, event) {
        (RedeemStep::Start, RedeemEvent::Begin) => redeem_begin(ctx, args),
        (RedeemStep::Burning, RedeemEvent::Burned { vault_balance }) => if ctx.legs_match() {
            redeem_next_leg(
                ctx,
                args.minimum_sol_amount,
                RedeemProgress { baseline: vault_balance, ..progress },
                0,
                0,
            )
        } else {
            redeem_unexpected(ctx, progress)
        },
        (RedeemStep::Custody { leg, received }, RedeemEvent::Custody(custody)) =>
            if ctx.legs_match() && leg < ctx.basket.tokens.len() {
            redeem_leg_opened(ctx, args, progress, leg as int, received, custody)
        } else {
            redeem_unexpected(ctx, progress)
        },
        (RedeemStep::Swapping { leg, received }, RedeemEvent::Swapped { vault_balance }) =>
            if ctx.legs_match() && leg < ctx.basket.tokens.len() {
            redeem_leg_closed(ctx, args, progress, leg as int, received, vault_balance)
        } else {
            redeem_unexpected(ctx, progress)
        },
        (RedeemStep::Paying, RedeemEvent::Paid) => RedeemOutcome {
            basket: ctx.basket.with_lock(false),
            progress: progress.at(RedeemStep::Done),
            action: RedeemActionView::Complete,
        },
        _ => redeem_unexpected(ctx, progress),
    }
}

fn legs_match(ctx: &Redeem) -> (matching: bool)
    ensures
        matching == ctx@.legs_match(),
        ctx.remaining_accounts@.len() <= usize::MAX,
{
    let supplied: usize = ctx.remaining_accounts.len();
    ctx.basket.accounts_match(supplied)
}

fn abort(ctx: &mut Redeem, progress: RedeemProgress, error: BasketError) -> (next: (
    RedeemProgress,
    RedeemAction,
))
    ensures
        final(ctx)@ == old(ctx)@.with_basket(redeem_aborted(old(ctx)@, progress, error).basket),
        next.0 == redeem_aborted(old(ctx)@, progress, error).progress,
        next.1@ == redeem_aborted(old(ctx)@, progress, error).action,
{
    ctx.basket.roll_back(progress.supply_before);
    (progress.moved_to(RedeemStep::Failed), RedeemAction::Abort(error))
}

fn refuse(error: BasketError) -> (next: (RedeemProgress, RedeemAction))
    ensures
        next.0 == RedeemProgress::spec_start().at(RedeemStep::Failed),
        next.1@ == RedeemActionView::Abort(error),
{
    (RedeemProgress::start().moved_to(RedeemStep::Failed), RedeemAction::Abort(error))
}

fn begin(
    ctx: &mut Redeem,
    amount: u64,
    jupiter_quote: [u8; 32],
    slippage_bps: u16,
    minimum_sol_amount: u64,
) -> (next: (RedeemProgress, RedeemAction))
    ensures
        ({
            let out = redeem_begin(
                old(ctx)@,
                redeem_args(amount, jupiter_quote, slippage_bps, minimum_sol_amount),
            );
            &&& final(ctx)@ == old(ctx)@.with_basket(out.basket)
            &&& next.0 == out.progress
            &&& next.1@ == out.action
        }),
{
    if ctx.basket.paused {
        return refuse(BasketError::ProgramPaused);
    }
    if ctx.basket.reentrancy_guard {
        return refuse(BasketError::ReentrancyDetected);
    }
    if !legs_match(ctx) {
        return refuse(BasketError::InvalidAccountCount);
    }
    let supply_before: u64 = ctx.basket.total_supply;
    let ratio: u128 = match redemption_ratio(amount, supply_before) {
        Err(error) => {
            return refuse(error);
        },
        Ok(ratio) => ratio,
    };
    let supply_after: u64 = match supply_before.checked_sub(amount) {
        None => {
            return refuse(BasketError::MathOverflow);
        },
        Some(supply_after) => supply_after,
    };
    ctx.basket.reentrancy_guard = true;
    ctx.basket.total_supply = supply_after;
    (
        RedeemProgress { step: RedeemStep::Burning, supply_before, ratio, baseline: 0 },
        RedeemAction::Burn { amount },
    )
}

fn next_leg(
    ctx: &mut Redeem,
    minimum_sol_amount: u64,
    progress: RedeemProgress,
    leg: usize,
    received: u64,
) -> (next: (RedeemProgress, RedeemAction))
    requires
        old(ctx)@.legs_match(),
        old(ctx).remaining_accounts@.len() <= usize::MAX,
        leg <= old(ctx).basket.tokens@.len(),
    ensures
        ({
            let out = redeem_next_leg(
                old(ctx)@,
                minimum_sol_amount,
                progress,
                leg as int,
                received,
            );
            &&& final(ctx)@ == old(ctx)@.with_basket(out.basket)
            &&& next.0 == out.progress
            &&& next.1@ == out.action
        }),
{
    if leg < ctx.basket.tokens.len() {
        assert(leg * ACCOUNTS_PER_LEG + CUSTODY_SLOT < ctx.remaining_accounts@.len())
            by (nonlinear_arith)
            requires
                leg < ctx.basket.tokens@.len(),
                ctx.remaining_accounts@.len() == ctx.basket.tokens@.len() * ACCOUNTS_PER_LEG,
                ACCOUNTS_PER_LEG == 12,
                CUSTODY_SLOT == 1,
        ;
        (
            progress.moved_to(RedeemStep::Custody { leg, received }),
            RedeemAction::ReadCustody { leg, account: leg * ACCOUNTS_PER_LEG + CUSTODY_SLOT },
        )
    } else if received < minimum_sol_amount {
        abort(ctx, progress, BasketError::SlippageExceeded)
    } else {
        (progress.moved_to(RedeemStep::Paying), RedeemAction::Pay { amount: received })
    }
}

/// Gives a redemption up from outside, as a host does that could not do
/// what it was asked to: the lock is released and the claim tokens that
/// were counted as gone are counted again.  Nothing happens to a redemption
/// that is not under way.
pub fn abandon_redeem(ctx: &mut Redeem, progress: RedeemProgress) -> (after: RedeemProgress)
    ensures
        final(ctx)@ == old(ctx)@.with_basket(redeem_abandoned(old(ctx)@, progress).0),
        after == redeem_abandoned(old(ctx)@, progress).1,
        old(ctx).basket@.wf() ==> final(ctx).basket@.wf(),
{
    match progress.step {
        RedeemStep::Start | RedeemStep::Done | RedeemStep::Failed => progress,
        _ => {
            ctx.basket.roll_back(progress.supply_before);
            progress.moved_to(RedeemStep::Failed)
        },
    }
}

/// Takes a redemption one step further.
///
/// The host calls this with `RedeemProgress::start()` and
/// `RedeemEvent::Begin`, does what the returned action asks, and calls again
/// with the returned progress and a report of what it did, until the action
/// is `Complete` or `Abort`.  The request stays the same throughout.
///
/// The vault record in `ctx` is changed as the step demands: when the
/// redemption is admitted the lock is taken and the claim tokens are counted
/// as gone, when the proceeds are paid the lock is released, and on `Abort`
/// the record is as it was when the redemption began.  What the step does
/// is `redeem_step`, exactly.
pub fn redeem(
    ctx: &mut Redeem,
    amount: u64,
    jupiter_quote: [u8; 32],
    slippage_bps: u16,
    minimum_sol_amount: u64,
    progress: RedeemProgress,
    event: RedeemEvent,
) -> (next: (RedeemProgress, RedeemAction))
    ensures
        ({
            let args = redeem_args(amount, jupiter_quote, slippage_bps, minimum_sol_amount);
            let out = redeem_step(old(ctx)@, args, progress, event);
            &&& final(ctx)@ == old(ctx)@.with_basket(out.basket)
            &&& next.0 == out.progress
            &&& next.1@ == out.action
        }),
        old(ctx).basket@.wf() ==> final(ctx).basket@.wf(),
{
    match (progress.step, event) {
        (RedeemStep::Start, RedeemEvent::Begin) => begin(
            ctx,
            amount,
            jupiter_quote,
            slippage_bps,
            minimum_sol_amount,
        ),
        (RedeemStep::Burning, RedeemEvent::Burned { vault_balance }) => {
            if legs_match(ctx) {
                let measured = RedeemProgress {
                    step: progress.step,
                    supply_before: progress.supply_before,
                    ratio: progress.ratio,
                    baseline: vault_balance,
                };
                next_leg(ctx, minimum_sol_amount, measured, 0, 0)
            } else {
                (progress, RedeemAction::Unexpected)
            }
        },
        (RedeemStep::Custody { leg, received }, RedeemEvent::Custody(custody)) => {
            if legs_match(ctx) && leg < ctx.basket.tokens.len() {
                match check_custody(&custody, &ctx.basket.tokens[leg], &ctx.basket_key) {
                    Err(error) => abort(ctx, progress, error),
                    Ok(_) => match leg_withdraw_qty(custody.amount, progress.ratio) {
                        Err(error) => abort(ctx, progress, error),
                        Ok(quantity) => {
                            let params = RouteSwapParams {
                                in_amount: quantity,
                                quote_id: jupiter_quote,
                                slippage_bps,
                            };
                            assert(has_leg_block(ctx.remaining_accounts@, leg as int))
                                by (nonlinear_arith)
                                requires
                                    0 <= leg < ctx.basket.tokens@.len(),
                                    ctx.remaining_accounts@.len() == ctx.basket.tokens@.len()
                                        * ACCOUNTS_PER_LEG,
                                    has_leg_block(ctx.remaining_accounts@, leg as int) == (0
                                        <= leg && (leg + 1) * ACCOUNTS_PER_LEG
                                        <= ctx.remaining_accounts@.len()),
                            ;
                            let instruction = swap_instruction(
                                &ctx.remaining_accounts,
                                leg,
                                &params,
                            ).unwrap();
                            (
                                progress.moved_to(RedeemStep::Swapping { leg, received }),
                                RedeemAction::Swap { leg, instruction },
                            )
                        },
                    },
                }
            } else {
                (progress, RedeemAction::Unexpected)
            }
        },
        (RedeemStep::Swapping { leg, received }, RedeemEvent::Swapped { vault_balance }) => {
            if legs_match(ctx) && leg < ctx.basket.tokens.len() {
                match progress.baseline.checked_add(received) {
                    None => abort(ctx, progress, BasketError::MathOverflow),
                    Some(expected) => match vault_balance.checked_sub(expected) {
                        None => abort(ctx, progress, BasketError::MathOverflow),
                        Some(gained) => next_leg(
                            ctx,
                            minimum_sol_amount,
                            progress,
                            leg + 1,
                            received + gained,
                        ),
                    },
                }
            } else {
                (progress, RedeemAction::Unexpected)
            }
        },
        (RedeemStep::Paying, RedeemEvent::Paid) => {
            ctx.basket.reentrancy_guard = false;
            (progress.moved_to(RedeemStep::Done), RedeemAction::Complete)
        },
        _ => (progress, RedeemAction::Unexpected),
    }
}

} // verus!
