//! What holds of every deposit, whatever the host reports.

use crate::deposit::{
    deposit_abandoned, deposit_begin, deposit_legs_match, deposit_step, DepositActionView,
    DepositArgs, DepositEvent, DepositOutcome, DepositProgress, DepositStep, DepositView,
};
use crate::error::{BasketError, ErrorKind};
use crate::math::{ACCOUNTS_PER_LEG, MINIMUM_DEPOSIT};
use crate::state::BasketView;
use vstd::prelude::*;

verus! {

/// Whether an action has the host call out: move funds, mint, or call the
/// venue.
pub open spec fn deposit_calls_out(action: DepositActionView) -> bool {
    action is Transfer || action is Mint || action is Swap
}

/// Where a deposit stands after the host has reported the given events in
/// turn, each step taken on the vault record that the step before it left.
/// Before the first report nothing is asked of the host.
pub open spec fn deposit_run(
    ctx: DepositView,
    args: DepositArgs,
    events: Seq<DepositEvent>,
) -> DepositOutcome
    decreases events.len(),
{
    if events.len() == 0 {
        DepositOutcome {
            basket: ctx.basket,
            progress: DepositProgress::spec_start(),
            action: DepositActionView::Unexpected,
        }
    } else {
        let before = deposit_run(ctx, args, events.drop_last());
        deposit_step(ctx.with_basket(before.basket), args, before.progress, events.last())
    }
}

/// How the vault record stands to the record with which a deposit began,
/// at each step of the deposit: untouched before the deposit is admitted
/// and after it is given up; locked while it is under way, with the claim
/// tokens counted as issued from the minting on; and, when it is through,
/// unlocked with exactly `amount` more claim tokens outstanding.
pub open spec fn deposit_inv(
    began: BasketView,
    args: DepositArgs,
    progress: DepositProgress,
    now: BasketView,
) -> bool {
    match progress.step {
        DepositStep::Start | DepositStep::Failed => now == began,
        DepositStep::Funding => {
            &&& !began.reentrancy_guard
            &&& progress.supply_before == began.total_supply
            &&& now == began.with_lock(true)
        },
        DepositStep::Minting | DepositStep::Custody { .. } | DepositStep::Swapping { .. } => {
            &&& !began.reentrancy_guard
            &&& progress.supply_before == began.total_supply
            &&& began.total_supply + args.amount <= u64::MAX
            &&& now == began.with_lock(true).with_supply(
                (began.total_supply + args.amount) as u64,
            )
        },
        DepositStep::Done => {
            &&& !began.reentrancy_guard
            &&& began.total_supply + args.amount <= u64::MAX
            &&& now == began.with_supply((began.total_supply + args.amount) as u64)
        },
    }
}

/// A step keeps the vault record in its relation to the record with which
/// the deposit began, whatever the host reports.
pub proof fn lemma_deposit_step_keeps_inv(
    ctx: DepositView,
    args: DepositArgs,
    progress: DepositProgress,
    now: BasketView,
    event: DepositEvent,
)
    requires
        deposit_inv(ctx.basket, args, progress, now),
    ensures
        ({
            let out = deposit_step(ctx.with_basket(now), args, progress, event);
            &&& deposit_inv(ctx.basket, args, out.progress, out.basket)
            &&& out.action is Abort ==> out.progress.step is Failed
            &&& out.action is Complete ==> out.progress.step is Done
            &&& out.action is Unexpected ==> out.progress == progress && out.basket == now
        }),
{
}

/// Whatever the host reports, in whatever order, the vault record stands to
/// the record with which the deposit began as the step reached demands.
pub proof fn lemma_deposit_run_keeps_inv(
    ctx: DepositView,
    args: DepositArgs,
    events: Seq<DepositEvent>,
)
    ensures
        ({
            let out = deposit_run(ctx, args, events);
            &&& deposit_inv(ctx.basket, args, out.progress, out.basket)
            &&& out.action is Abort ==> out.progress.step is Failed
            &&& out.action is Complete ==> out.progress.step is Done
        }),
    decreases events.len(),
{
    if events.len() > 0 {
        lemma_deposit_run_keeps_inv(ctx, args, events.drop_last());
        let before = deposit_run(ctx, args, events.drop_last());
        lemma_deposit_step_keeps_inv(ctx, args, before.progress, before.basket, events.last());
    }
}

/// A deposit that is given up, at whatever step and for whatever reason,
/// leaves the vault record exactly as it found it: the claim tokens that
/// were counted as issued are no longer counted, and the lock is as it was.
pub proof fn lemma_deposit_abort_restores(
    ctx: DepositView,
    args: DepositArgs,
    events: Seq<DepositEvent>,
)
    requires
        deposit_run(ctx, args, events).action is Abort,
    ensures
        deposit_run(ctx, args, events).basket == ctx.basket,
        deposit_run(ctx, args, events).progress.step is Failed,
{
    lemma_deposit_run_keeps_inv(ctx, args, events);
}

/// A deposit that goes through leaves exactly `amount` more claim tokens
/// outstanding, the lock free, and everything else in the vault record as
/// it was.
pub proof fn lemma_deposit_complete_issues_amount(
    ctx: DepositView,
    args: DepositArgs,
    events: Seq<DepositEvent>,
)
    requires
        deposit_run(ctx, args, events).action is Complete,
    ensures
        ctx.basket.total_supply + args.amount <= u64::MAX,
        !ctx.basket.reentrancy_guard,
        deposit_run(ctx, args, events).basket == ctx.basket.with_supply(
            (ctx.basket.total_supply + args.amount) as u64,
        ),
{
    lemma_deposit_run_keeps_inv(ctx, args, events);
}

/// A deposit that is given up from outside while it is under way, however
/// far it has come, leaves the vault record exactly as the deposit found
/// it.
pub proof fn lemma_deposit_abandon_restores(
    ctx: DepositView,
    args: DepositArgs,
    events: Seq<DepositEvent>,
)
    requires
        deposit_run(ctx, args, events).progress.in_flight(),
    ensures
        ({
            let out = deposit_run(ctx, args, events);
            let after = deposit_abandoned(ctx.with_basket(out.basket), out.progress);
            &&& after.0 == ctx.basket
            &&& after.1.step is Failed
        }),
{
    lemma_deposit_run_keeps_inv(ctx, args, events);
}

/// A step changes nothing of the vault record but the claim tokens
/// outstanding and the lock, whatever progress and report it is given: the
/// authority, the registry, the capacity and the pause stay as they are.
pub proof fn lemma_deposit_step_keeps_registry(
    ctx: DepositView,
    args: DepositArgs,
    progress: DepositProgress,
    event: DepositEvent,
)
    ensures
        ({
            let out = deposit_step(ctx, args, progress, event);
            &&& out.basket == ctx.basket.with_supply(out.basket.total_supply).with_lock(
                out.basket.reentrancy_guard,
            )
            &&& out.basket.wf() == ctx.basket.wf()
        }),
{
}

/// While a deposit is under way the lock is held, and at every other time
/// the lock is as the deposit found it.
pub proof fn lemma_deposit_lock_held_under_way(
    ctx: DepositView,
    args: DepositArgs,
    events: Seq<DepositEvent>,
)
    ensures
        ({
            let out = deposit_run(ctx, args, events);
            if out.progress.in_flight() {
                out.basket.reentrancy_guard
            } else {
                out.basket.reentrancy_guard == ctx.basket.reentrancy_guard
            }
        }),
{
    lemma_deposit_run_keeps_inv(ctx, args, events);
}

/// The claim tokens that the host has been asked to mint in the course of
/// a run.
pub open spec fn deposit_minted(
    ctx: DepositView,
    args: DepositArgs,
    events: Seq<DepositEvent>,
) -> nat
    decreases events.len(),
{
    if events.len() == 0 {
        0
    } else {
        let before = deposit_minted(ctx, args, events.drop_last());
        match deposit_run(ctx, args, events).action {
            DepositActionView::Mint { amount } => before + amount as nat,
            _ => before,
        }
    }
}

/// The vault record counts as issued exactly what the host has been asked
/// to mint: at every point of every deposit that has not been given up, the
/// claim tokens outstanding are those outstanding before plus those minted;
/// and a deposit asks for its amount to be minted once, or not at all.
pub proof fn lemma_deposit_counts_what_is_minted(
    ctx: DepositView,
    args: DepositArgs,
    events: Seq<DepositEvent>,
)
    ensures
        ({
            let out = deposit_run(ctx, args, events);
            let minted = deposit_minted(ctx, args, events);
            &&& minted == 0 || minted == args.amount
            &&& out.progress.step is Start || out.progress.step is Funding ==> minted == 0
            &&& out.progress.in_flight() && !(out.progress.step is Funding) ==> minted
                == args.amount
            &&& out.progress.step is Done ==> minted == args.amount
            &&& !(out.progress.step is Failed) ==> out.basket.total_supply
                == ctx.basket.total_supply + minted
        }),
    decreases events.len(),
{
    lemma_deposit_run_keeps_inv(ctx, args, events);
    if events.len() > 0 {
        lemma_deposit_counts_what_is_minted(ctx, args, events.drop_last());
        lemma_deposit_run_keeps_inv(ctx, args, events.drop_last());
    }
}

/// A deposit that is refused at the door never has the host call out:
/// whatever the host reports afterwards, no funds are moved, nothing is
/// minted, the venue is not called, and the vault record stays as it was.
pub proof fn lemma_deposit_refused_calls_nothing(
    ctx: DepositView,
    args: DepositArgs,
    events: Seq<DepositEvent>,
)
    requires
        deposit_begin(ctx, args).action is Abort,
    ensures
        !deposit_calls_out(deposit_run(ctx, args, events).action),
        deposit_run(ctx, args, events).basket == ctx.basket,
        !deposit_run(ctx, args, events).progress.in_flight(),
        !(deposit_run(ctx, args, events).progress.step is Done),
    decreases events.len(),
{
    if events.len() > 0 {
        lemma_deposit_refused_calls_nothing(ctx, args, events.drop_last());
        assert(ctx.with_basket(ctx.basket) == ctx);
    }
}

/// A deposit below the floor is refused at the door; with nothing else in
/// the way the error is `InsufficientDeposit`.  A deposit of exactly the
/// floor is admitted where the lists match: the lock is taken and the
/// funding asset is asked for.
pub proof fn lemma_deposit_floor(ctx: DepositView, args: DepositArgs)
    requires
        !ctx.basket.paused,
        !ctx.basket.reentrancy_guard,
    ensures
        args.amount < MINIMUM_DEPOSIT ==> deposit_begin(ctx, args).action
            == DepositActionView::Abort(BasketError::InsufficientDeposit) && deposit_begin(
            ctx,
            args,
        ).basket == ctx.basket,
        args.amount >= MINIMUM_DEPOSIT && deposit_legs_match(ctx, args) ==> deposit_begin(
            ctx,
            args,
        ).action == (DepositActionView::Transfer { amount: args.amount }) && deposit_begin(
            ctx,
            args,
        ).basket == ctx.basket.with_lock(true),
{
}

/// A deposit whose list of minimums has not one entry for each
/// constituent is refused at the door, whatever else holds of it, and so
/// before the host calls out; with nothing before it in the way the error
/// is `InvalidTokenCount`.
pub proof fn lemma_deposit_leg_count(
    ctx: DepositView,
    args: DepositArgs,
    events: Seq<DepositEvent>,
)
    requires
        args.minimum_token_amounts.len() != ctx.basket.tokens.len(),
    ensures
        deposit_begin(ctx, args).action is Abort,
        deposit_begin(ctx, args).basket == ctx.basket,
        !ctx.basket.paused && !ctx.basket.reentrancy_guard && args.amount >= MINIMUM_DEPOSIT
            ==> deposit_begin(ctx, args).action == DepositActionView::Abort(
            BasketError::InvalidTokenCount,
        ),
        !deposit_calls_out(deposit_run(ctx, args, events).action),
{
    lemma_deposit_refused_calls_nothing(ctx, args, events);
}

/// A deposit is admitted only with exactly twelve accounts for each
/// constituent: one more or one fewer, or any other number, and it is
/// refused at the door; with nothing before it in the way the error is
/// `InvalidAccountCount`.
pub proof fn lemma_deposit_account_count(
    ctx: DepositView,
    args: DepositArgs,
    events: Seq<DepositEvent>,
)
    requires
        ctx.remaining_accounts.len() != ctx.basket.tokens.len() * ACCOUNTS_PER_LEG,
    ensures
        deposit_begin(ctx, args).action is Abort,
        deposit_begin(ctx, args).basket == ctx.basket,
        !ctx.basket.paused && !ctx.basket.reentrancy_guard && args.amount >= MINIMUM_DEPOSIT
            && args.minimum_token_amounts.len() == ctx.basket.tokens.len() ==> deposit_begin(
            ctx,
            args,
        ).action == DepositActionView::Abort(BasketError::InvalidAccountCount),
        !deposit_calls_out(deposit_run(ctx, args, events).action),
{
    lemma_deposit_refused_calls_nothing(ctx, args, events);
}

/// A deposit submitted while the lock is held is refused at the door for
/// the state of the vault, and nothing is changed: the lock stays with the
/// operation that holds it.
pub proof fn lemma_deposit_reentry_refused(
    ctx: DepositView,
    args: DepositArgs,
    events: Seq<DepositEvent>,
)
    requires
        ctx.basket.reentrancy_guard,
    ensures
        deposit_begin(ctx, args).action is Abort,
        deposit_begin(ctx, args).action->Abort_0.spec_kind() == ErrorKind::StateGuard,
        !ctx.basket.paused ==> deposit_begin(ctx, args).action == DepositActionView::Abort(
            BasketError::ReentrancyDetected,
        ),
        deposit_begin(ctx, args).basket == ctx.basket,
        deposit_run(ctx, args, events).basket == ctx.basket,
        !deposit_calls_out(deposit_run(ctx, args, events).action),
{
    lemma_deposit_refused_calls_nothing(ctx, args, events);
}

/// A deposit submitted while the vault is paused is refused at the door
/// with `ProgramPaused`, and nothing is changed.
pub proof fn lemma_deposit_paused_refused(
    ctx: DepositView,
    args: DepositArgs,
    events: Seq<DepositEvent>,
)
    requires
        ctx.basket.paused,
    ensures
        deposit_begin(ctx, args).action == DepositActionView::Abort(BasketError::ProgramPaused),
        deposit_begin(ctx, args).basket == ctx.basket,
        deposit_run(ctx, args, events).basket == ctx.basket,
        !deposit_calls_out(deposit_run(ctx, args, events).action),
{
    lemma_deposit_refused_calls_nothing(ctx, args, events);
}

/// A leg whose custody account gained less than the depositor's minimum
/// for it gives the whole deposit up with `SlippageExceeded`: no further
/// leg is opened, and the vault record goes back to the claim tokens that
/// were outstanding before and to a free lock.
pub proof fn lemma_deposit_slippage_aborts(
    ctx: DepositView,
    args: DepositArgs,
    progress: DepositProgress,
    balance: u64,
)
    requires
        deposit_legs_match(ctx, args),
        progress.step matches DepositStep::Swapping { leg, baseline } && leg
            < ctx.basket.tokens.len() && baseline <= balance && balance - baseline
            < args.minimum_token_amounts[leg as int],
    ensures
        ({
            let out = deposit_step(ctx, args, progress, DepositEvent::Swapped { balance });
            &&& out.action == DepositActionView::Abort(BasketError::SlippageExceeded)
            &&& out.progress.step is Failed
            &&& out.basket == ctx.basket.rolled_back(progress.supply_before)
        }),
{
}

/// A leg whose custody account gained at least the depositor's minimum for
/// it lets the deposit go on: to the next leg, or, after the last, to the
/// end.
pub proof fn lemma_deposit_leg_within_slippage(
    ctx: DepositView,
    args: DepositArgs,
    progress: DepositProgress,
    balance: u64,
)
    requires
        ctx.basket.tokens.len() <= usize::MAX,
        deposit_legs_match(ctx, args),
        progress.step matches DepositStep::Swapping { leg, baseline } && leg
            < ctx.basket.tokens.len() && baseline <= balance && balance - baseline
            >= args.minimum_token_amounts[leg as int],
    ensures
        ({
            let out = deposit_step(ctx, args, progress, DepositEvent::Swapped { balance });
            let leg = progress.step->Swapping_leg;
            if leg + 1 < ctx.basket.tokens.len() {
                &&& out.action is ReadCustody
                &&& out.action->ReadCustody_leg == leg + 1
                &&& out.basket == ctx.basket
            } else {
                &&& out.action is Complete
                &&& out.basket == ctx.basket.with_lock(false)
            }
        }),
{
}

} // verus!
