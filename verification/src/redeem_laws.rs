//! What holds of every redemption, whatever the host reports.

use crate::error::{BasketError, ErrorKind};
use crate::jupiter::RouteSwapParams;
use crate::math::{
    lemma_ratio_at_most_one, lemma_ratio_of_everything, lemma_share_at_most_held, ratio_of,
    share_of, MAGNIFIER,
};
use crate::redeem::{
    redeem_abandoned, redeem_begin, redeem_next_leg, redeem_step, RedeemActionView, RedeemArgs,
    RedeemEvent, RedeemOutcome, RedeemProgress, RedeemStep, RedeemView,
};
use crate::state::BasketView;
use crate::swap::{custody_check, leg_instruction, CustodyAccount};
use vstd::prelude::*;

verus! {

/// Whether an action has the host call out: burn, call the venue, or pay.
pub open spec fn redeem_calls_out(action: RedeemActionView) -> bool {
    action is Burn || action is Swap || action is Pay
}

/// Where a redemption stands after the host has reported the given events
/// in turn, each step taken on the vault record that the step before it
/// left.  Before the first report nothing is asked of the host.
pub open spec fn redeem_run(
    ctx: RedeemView,
    args: RedeemArgs,
    events: Seq<RedeemEvent>,
) -> RedeemOutcome
    decreases events.len(),
{
    if events.len() == 0 {
        RedeemOutcome {
            basket: ctx.basket,
            progress: RedeemProgress::spec_start(),
            action: RedeemActionView::Unexpected,
        }
    } else {
        let before = redeem_run(ctx, args, events.drop_last());
        redeem_step(ctx.with_basket(before.basket), args, before.progress, events.last())
    }
}

/// How the vault record stands to the record with which a redemption began,
/// at each step of the redemption: untouched before the redemption is
/// admitted and after it is given up; locked, with the claim tokens counted
/// as gone, while it is under way; and, when it is through, unlocked with
/// exactly `amount` fewer claim tokens outstanding.  Under way, the ratio
/// is the redeemed part of what was outstanding, and at most one.
pub open spec fn redeem_inv(
    began: BasketView,
    args: RedeemArgs,
    progress: RedeemProgress,
    now: BasketView,
) -> bool {
    match progress.step {
        RedeemStep::Start | RedeemStep::Failed => now == began,
        RedeemStep::Burning
        | RedeemStep::Custody { .. }
        | RedeemStep::Swapping { .. }
        | RedeemStep::Paying => {
            &&& !began.reentrancy_guard
            &&& progress.supply_before == began.total_supply
            &&& 0 < began.total_supply
            &&& args.amount <= began.total_supply
            &&& progress.ratio == ratio_of(args.amount as nat, began.total_supply as nat)
            &&& progress.ratio <= MAGNIFIER
            &&& now == began.with_lock(true).with_supply(
                (began.total_supply - args.amount) as u64,
            )
        },
        RedeemStep::Done => {
            &&& !began.reentrancy_guard
            &&& args.amount <= began.total_supply
            &&& now == began.with_supply((began.total_supply - args.amount) as u64)
        },
    }
}

/// A step keeps the vault record in its relation to the record with which
/// the redemption began, whatever the host reports.
pub proof fn lemma_redeem_step_keeps_inv(
    ctx: RedeemView,
    args: RedeemArgs,
    progress: RedeemProgress,
    now: BasketView,
    event: RedeemEvent,
)
    requires
        redeem_inv(ctx.basket, args, progress, now),
    ensures
        ({
            let out = redeem_step(ctx.with_basket(now), args, progress, event);
            &&& redeem_inv(ctx.basket, args, out.progress, out.basket)
            &&& out.action is Abort ==> out.progress.step is Failed
            &&& out.action is Complete ==> out.progress.step is Done
            &&& out.action is Unexpected ==> out.progress == progress && out.basket == now
        }),
{
    if ctx.basket.total_supply > 0 && args.amount <= ctx.basket.total_supply {
        lemma_ratio_at_most_one(args.amount as nat, ctx.basket.total_supply as nat);
    }
}

/// Whatever the host reports, in whatever order, the vault record stands to
/// the record with which the redemption began as the step reached demands.
pub proof fn lemma_redeem_run_keeps_inv(
    ctx: RedeemView,
    args: RedeemArgs,
    events: Seq<RedeemEvent>,
)
    ensures
        ({
            let out = redeem_run(ctx, args, events);
            &&& redeem_inv(ctx.basket, args, out.progress, out.basket)
            &&& out.action is Abort ==> out.progress.step is Failed
            &&& out.action is Complete ==> out.progress.step is Done
        }),
    decreases events.len(),
{
    if events.len() > 0 {
        lemma_redeem_run_keeps_inv(ctx, args, events.drop_last());
        let before = redeem_run(ctx, args, events.drop_last());
        lemma_redeem_step_keeps_inv(ctx, args, before.progress, before.basket, events.last());
    }
}

/// A redemption that is given up, at whatever step and for whatever
/// reason, leaves the vault record exactly as it found it: the claim tokens
/// that were counted as gone are counted again, and the lock is as it was.
pub proof fn lemma_redeem_abort_restores(
    ctx: RedeemView,
    args: RedeemArgs,
    events: Seq<RedeemEvent>,
)
    requires
        redeem_run(ctx, args, events).action is Abort,
    ensures
        redeem_run(ctx, args, events).basket == ctx.basket,
        redeem_run(ctx, args, events).progress.step is Failed,
{
    lemma_redeem_run_keeps_inv(ctx, args, events);
}

/// A redemption that goes through leaves exactly `amount` fewer claim
/// tokens outstanding, the lock free, and everything else in the vault
/// record as it was.
pub proof fn lemma_redeem_complete_retires_amount(
    ctx: RedeemView,
    args: RedeemArgs,
    events: Seq<RedeemEvent>,
)
    requires
        redeem_run(ctx, args, events).action is Complete,
    ensures
        args.amount <= ctx.basket.total_supply,
        !ctx.basket.reentrancy_guard,
        redeem_run(ctx, args, events).basket == ctx.basket.with_supply(
            (ctx.basket.total_supply - args.amount) as u64,
        ),
{
    lemma_redeem_run_keeps_inv(ctx, args, events);
}

/// A redemption that is given up from outside while it is under way,
/// however far it has come, leaves the vault record exactly as the
/// redemption found it.
pub proof fn lemma_redeem_abandon_restores(
    ctx: RedeemView,
    args: RedeemArgs,
    events: Seq<RedeemEvent>,
)
    requires
        redeem_run(ctx, args, events).progress.in_flight(),
    ensures
        ({
            let out = redeem_run(ctx, args, events);
            let after = redeem_abandoned(ctx.with_basket(out.basket), out.progress);
            &&& after.0 == ctx.basket
            &&& after.1.step is Failed
        }),
{
    lemma_redeem_run_keeps_inv(ctx, args, events);
}

/// A step changes nothing of the vault record but the claim tokens
/// outstanding and the lock, whatever progress and report it is given: the
/// authority, the registry, the capacity and the pause stay as they are.
pub proof fn lemma_redeem_step_keeps_registry(
    ctx: RedeemView,
    args: RedeemArgs,
    progress: RedeemProgress,
    event: RedeemEvent,
)
    ensures
        ({
            let out = redeem_step(ctx, args, progress, event);
            &&& out.basket == ctx.basket.with_supply(out.basket.total_supply).with_lock(
                out.basket.reentrancy_guard,
            )
            &&& out.basket.wf() == ctx.basket.wf()
        }),
{
}

/// While a redemption is under way the lock is held, and at every other
/// time the lock is as the redemption found it.
pub proof fn lemma_redeem_lock_held_under_way(
    ctx: RedeemView,
    args: RedeemArgs,
    events: Seq<RedeemEvent>,
)
    ensures
        ({
            let out = redeem_run(ctx, args, events);
            if out.progress.in_flight() {
                out.basket.reentrancy_guard
            } else {
                out.basket.reentrancy_guard == ctx.basket.reentrancy_guard
            }
        }),
{
    lemma_redeem_run_keeps_inv(ctx, args, events);
}

/// The claim tokens that the host has been asked to burn in the course of
/// a run.
pub open spec fn redeem_burned(
    ctx: RedeemView,
    args: RedeemArgs,
    events: Seq<RedeemEvent>,
) -> nat
    decreases events.len(),
{
    if events.len() == 0 {
        0
    } else {
        let before = redeem_burned(ctx, args, events.drop_last());
        match redeem_run(ctx, args, events).action {
            RedeemActionView::Burn { amount } => before + amount as nat,
            _ => before,
        }
    }
}

/// The vault record counts as gone exactly what the host has been asked to
/// burn: at every point of every redemption that has not been given up, the
/// claim tokens outstanding are those outstanding before less those
/// burned; and a redemption asks for its amount to be burned once, or not
/// at all.
pub proof fn lemma_redeem_counts_what_is_burned(
    ctx: RedeemView,
    args: RedeemArgs,
    events: Seq<RedeemEvent>,
)
    ensures
        ({
            let out = redeem_run(ctx, args, events);
            let burned = redeem_burned(ctx, args, events);
            &&& burned == 0 || burned == args.amount
            &&& out.progress.step is Start ==> burned == 0
            &&& out.progress.in_flight() || out.progress.step is Done ==> burned == args.amount
            &&& !(out.progress.step is Failed) ==> out.basket.total_supply + burned
                == ctx.basket.total_supply
        }),
    decreases events.len(),
{
    lemma_redeem_run_keeps_inv(ctx, args, events);
    if events.len() > 0 {
        lemma_redeem_counts_what_is_burned(ctx, args, events.drop_last());
        lemma_redeem_run_keeps_inv(ctx, args, events.drop_last());
    }
}

/// A redemption that is refused at the door never has the host call out:
/// whatever the host reports afterwards, nothing is burned, the venue is
/// not called, nothing is paid, and the vault record stays as it was.
pub proof fn lemma_redeem_refused_calls_nothing(
    ctx: RedeemView,
    args: RedeemArgs,
    events: Seq<RedeemEvent>,
)
    requires
        redeem_begin(ctx, args).action is Abort,
    ensures
        !redeem_calls_out(redeem_run(ctx, args, events).action),
        redeem_run(ctx, args, events).basket == ctx.basket,
        !redeem_run(ctx, args, events).progress.in_flight(),
        !(redeem_run(ctx, args, events).progress.step is Done),
    decreases events.len(),
{
    if events.len() > 0 {
        lemma_redeem_refused_calls_nothing(ctx, args, events.drop_last());
        assert(ctx.with_basket(ctx.basket) == ctx);
    }
}

/// A redemption of more claim tokens than are outstanding is refused at
/// the door, whatever else holds of it: nothing is ever burned and the
/// vault record stays as it was.  On a vault that is neither paused nor
/// locked the error is one of accounting; with the accounts in order, it is
/// `MathOverflow`.
pub proof fn lemma_redeem_more_than_outstanding(
    ctx: RedeemView,
    args: RedeemArgs,
    events: Seq<RedeemEvent>,
)
    requires
        args.amount > ctx.basket.total_supply,
    ensures
        redeem_begin(ctx, args).action is Abort,
        redeem_begin(ctx, args).basket == ctx.basket,
        !ctx.basket.paused && !ctx.basket.reentrancy_guard ==> redeem_begin(
            ctx,
            args,
        ).action->Abort_0.spec_kind() == ErrorKind::Accounting,
        !ctx.basket.paused && !ctx.basket.reentrancy_guard && ctx.legs_match() ==> redeem_begin(
            ctx,
            args,
        ).action == RedeemActionView::Abort(BasketError::MathOverflow),
        !(redeem_run(ctx, args, events).action is Burn),
        !redeem_calls_out(redeem_run(ctx, args, events).action),
        redeem_run(ctx, args, events).basket == ctx.basket,
{
    lemma_redeem_refused_calls_nothing(ctx, args, events);
}

/// With no claim tokens outstanding a redemption is refused at the door,
/// before a ratio is formed; with nothing before it in the way, with
/// `MathOverflow`.
pub proof fn lemma_redeem_nothing_outstanding(ctx: RedeemView, args: RedeemArgs)
    requires
        ctx.basket.total_supply == 0,
    ensures
        redeem_begin(ctx, args).action is Abort,
        redeem_begin(ctx, args).basket == ctx.basket,
        !ctx.basket.paused && !ctx.basket.reentrancy_guard && ctx.legs_match() ==> redeem_begin(
            ctx,
            args,
        ).action == RedeemActionView::Abort(BasketError::MathOverflow),
{
}

/// A redemption is admitted only with exactly twelve accounts for each
/// constituent: one more or one fewer, or any other number, and it is
/// refused at the door; with nothing before it in the way the error is
/// `InvalidAccountCount`.
pub proof fn lemma_redeem_account_count(
    ctx: RedeemView,
    args: RedeemArgs,
    events: Seq<RedeemEvent>,
)
    requires
        !ctx.legs_match(),
    ensures
        redeem_begin(ctx, args).action is Abort,
        redeem_begin(ctx, args).basket == ctx.basket,
        !ctx.basket.paused && !ctx.basket.reentrancy_guard ==> redeem_begin(ctx, args).action
            == RedeemActionView::Abort(BasketError::InvalidAccountCount),
        !redeem_calls_out(redeem_run(ctx, args, events).action),
{
    lemma_redeem_refused_calls_nothing(ctx, args, events);
}

/// A redemption submitted while the lock is held is refused at the door
/// for the state of the vault, and nothing is changed: the lock stays with
/// the operation that holds it.
pub proof fn lemma_redeem_reentry_refused(
    ctx: RedeemView,
    args: RedeemArgs,
    events: Seq<RedeemEvent>,
)
    requires
        ctx.basket.reentrancy_guard,
    ensures
        redeem_begin(ctx, args).action is Abort,
        redeem_begin(ctx, args).action->Abort_0.spec_kind() == ErrorKind::StateGuard,
        !ctx.basket.paused ==> redeem_begin(ctx, args).action == RedeemActionView::Abort(
            BasketError::ReentrancyDetected,
        ),
        redeem_begin(ctx, args).basket == ctx.basket,
        redeem_run(ctx, args, events).basket == ctx.basket,
        !redeem_calls_out(redeem_run(ctx, args, events).action),
{
    lemma_redeem_refused_calls_nothing(ctx, args, events);
}

/// A redemption submitted while the vault is paused is refused at the door
/// with `ProgramPaused`, and nothing is changed.
pub proof fn lemma_redeem_paused_refused(
    ctx: RedeemView,
    args: RedeemArgs,
    events: Seq<RedeemEvent>,
)
    requires
        ctx.basket.paused,
    ensures
        redeem_begin(ctx, args).action == RedeemActionView::Abort(BasketError::ProgramPaused),
        redeem_begin(ctx, args).basket == ctx.basket,
        redeem_run(ctx, args, events).basket == ctx.basket,
        !redeem_calls_out(redeem_run(ctx, args, events).action),
{
    lemma_redeem_refused_calls_nothing(ctx, args, events);
}

/// A redemption that is admitted fixes its ratio from what is outstanding
/// at that moment, counts the claim tokens as gone, and only then has them
/// burned.
pub proof fn lemma_redeem_admitted(ctx: RedeemView, args: RedeemArgs)
    requires
        !ctx.basket.paused,
        !ctx.basket.reentrancy_guard,
        ctx.legs_match(),
        0 < ctx.basket.total_supply,
        args.amount <= ctx.basket.total_supply,
    ensures
        ({
            let out = redeem_begin(ctx, args);
            &&& out.action == (RedeemActionView::Burn { amount: args.amount })
            &&& out.progress.step is Burning
            &&& out.progress.ratio == ratio_of(args.amount as nat, ctx.basket.total_supply as nat)
            &&& out.progress.ratio <= MAGNIFIER
            &&& args.amount == ctx.basket.total_supply ==> out.progress.ratio == MAGNIFIER
            &&& out.basket.reentrancy_guard
            &&& out.basket.total_supply == ctx.basket.total_supply - args.amount
        }),
{
    lemma_ratio_at_most_one(args.amount as nat, ctx.basket.total_supply as nat);
    lemma_ratio_of_everything(ctx.basket.total_supply as nat);
}

/// With a ratio of at most one, as every admitted redemption has, a leg
/// whose custody account passes the check is always opened: the quantity
/// offered to the venue is the redeemed part of what the account holds,
/// never more than it holds, and all of it when everything is redeemed.
pub proof fn lemma_redeem_leg_quantity(
    ctx: RedeemView,
    args: RedeemArgs,
    progress: RedeemProgress,
    custody: CustodyAccount,
)
    requires
        ctx.legs_match(),
        progress.ratio <= MAGNIFIER,
        progress.step matches RedeemStep::Custody { leg, received } && leg
            < ctx.basket.tokens.len() && custody_check(
            custody,
            ctx.basket.tokens[leg as int],
            ctx.basket_key,
        ) is Ok,
    ensures
        ({
            let out = redeem_step(ctx, args, progress, RedeemEvent::Custody(custody));
            let leg = progress.step->Custody_leg;
            let quantity = share_of(custody.amount as nat, progress.ratio as nat);
            &&& quantity <= custody.amount
            &&& progress.ratio == MAGNIFIER ==> quantity == custody.amount
            &&& out.basket == ctx.basket
            &&& out.action == (RedeemActionView::Swap {
                leg,
                instruction: leg_instruction(
                    ctx.remaining_accounts,
                    leg as int,
                    RouteSwapParams {
                        in_amount: quantity as u64,
                        quote_id: args.jupiter_quote,
                        slippage_bps: args.slippage_bps,
                    },
                ),
            })
        }),
{
    lemma_share_at_most_held(custody.amount as nat, progress.ratio as nat);
}

/// When the last leg is through, proceeds below the holder's minimum give
/// the whole redemption up with `SlippageExceeded`, and the vault record
/// goes back to the claim tokens that were outstanding before and to a
/// free lock; proceeds of at least the minimum are paid out in full.
pub proof fn lemma_redeem_settlement(
    ctx: RedeemView,
    args: RedeemArgs,
    progress: RedeemProgress,
    received: u64,
)
    ensures
        ({
            let out = redeem_next_leg(
                ctx,
                args.minimum_sol_amount,
                progress,
                ctx.basket.tokens.len() as int,
                received,
            );
            if received < args.minimum_sol_amount {
                &&& out.action == RedeemActionView::Abort(BasketError::SlippageExceeded)
                &&& out.progress.step is Failed
                &&& out.basket == ctx.basket.rolled_back(progress.supply_before)
            } else {
                &&& out.action == (RedeemActionView::Pay { amount: received })
                &&& out.progress.step is Paying
                &&& out.basket == ctx.basket
            }
        }),
{
}

/// What a leg adds to the proceeds is what the vault gained of the funding
/// asset while the venue worked on it: after each leg the proceeds are the
/// vault's balance less its balance before the first leg.
pub proof fn lemma_redeem_proceeds_are_measured(
    ctx: RedeemView,
    args: RedeemArgs,
    progress: RedeemProgress,
    vault_balance: u64,
)
    requires
        ctx.legs_match(),
        progress.step matches RedeemStep::Swapping { leg, received } && leg
            < ctx.basket.tokens.len() && progress.baseline + received <= vault_balance,
    ensures
        redeem_step(ctx, args, progress, RedeemEvent::Swapped { vault_balance })
            == redeem_next_leg(
            ctx,
            args.minimum_sol_amount,
            progress,
            progress.step->Swapping_leg + 1,
            (vault_balance - progress.baseline) as u64,
        ),
{
}

/// A vault that reports less of the funding asset after a leg than before
/// it gives the redemption up with `MathOverflow`.
pub proof fn lemma_redeem_loss_aborts(
    ctx: RedeemView,
    args: RedeemArgs,
    progress: RedeemProgress,
    vault_balance: u64,
)
    requires
        ctx.legs_match(),
        progress.step matches RedeemStep::Swapping { leg, received } && leg
            < ctx.basket.tokens.len() && vault_balance < progress.baseline + received,
    ensures
        ({
            let out = redeem_step(ctx, args, progress, RedeemEvent::Swapped { vault_balance });
            &&& out.action == RedeemActionView::Abort(BasketError::MathOverflow)
            &&& out.basket == ctx.basket.rolled_back(progress.supply_before)
        }),
{
}

} // verus!
