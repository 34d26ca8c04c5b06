//! Properties of the launchpad that span instructions or hold of every
//! accepted call.
use vstd::prelude::*;
use crate::buy::{
    buy_creator_fee, buy_is_penalty, buy_lock_duration, buy_net_sol, buy_penalizes_slot,
    buy_platform_fee, buy_rejection, buy_stats_fit, buy_starts_slot, buy_tokens_out, buys_in_slot_after,
    launch_after_buy, lock_of_buy, slot_accounts_match, slot_first_tracker_after_buy,
    slot_locks_after_buy, tracker_after_buy, Buy,
};
use crate::claim_buyer_lock::{claim_buyer_lock_rejection, ClaimBuyerLock};
use crate::claim_creator_lock::{claim_creator_lock_rejection, ClaimCreatorLock};
use crate::constants::{
    BUYER_LOCK_MAX, BUYER_LOCK_MIN, CREATOR_LOCK_MAX, CREATOR_LOCK_MIN, MAX_FEE_BPS,
    PENALTY_LOCK_MAX, PENALTY_LOCK_MIN, SAME_BLOCK_THRESHOLD,
};
use crate::create_launch::{
    create_launch_lock_duration, is_created_launch, spec_creator_locked, spec_launch_supply,
    CreateLaunch, CreateLaunchParams,
};
use crate::errors::VaultpadError;
use crate::flag_same_funder::flag_same_funder_rejection;
use crate::flag_same_funder::FlagSameFunder;
use crate::initialize_protocol::{initialize_protocol_rejection, InitializeProtocolParams};
use crate::sell::{
    launch_after_sell, sell_creator_fee, sell_gross_sol, sell_net_sol, sell_platform_fee,
    sell_rejection, Sell,
};
use crate::state::{spec_max_wallet_tokens, Clock, LaunchState, ProtocolConfig, WalletTracker};
use crate::update_protocol::{update_protocol_rejection, UpdateProtocol, UpdateProtocolParams};
use vstd::arithmetic::power::pow;

verus! {

/// Both fees are within the hard cap.
pub open spec fn config_fees_capped(c: ProtocolConfig) -> bool {
    c.platform_fee_bps <= MAX_FEE_BPS && c.creator_fee_bps <= MAX_FEE_BPS
}

/// The curve's real reserves never exceed its virtual reserves.
pub open spec fn curve_wf(l: LaunchState) -> bool {
    l.real_token_reserves <= l.virtual_token_reserves && l.real_sol_reserves
        <= l.virtual_sol_reserves
}

/// A new launch starts with a well-formed curve.
pub proof fn law_new_curve_wf(
    created: LaunchState,
    ctx: CreateLaunch,
    clock: Clock,
    params: CreateLaunchParams,
)
    requires
        is_created_launch(created, ctx, clock, params),
    ensures
        curve_wf(created),
{
    reveal_with_fuel(pow, 7);
}

/// Every accepted buy keeps the curve well formed.
pub proof fn law_buy_keeps_curve_wf(ctx: Buy, clock: Clock, amount_in: u64, min_tokens_out: u64)
    requires
        curve_wf(ctx.launch_state),
        buy_rejection(ctx, clock, amount_in, min_tokens_out) is None,
    ensures
        curve_wf(launch_after_buy(ctx, clock, amount_in)),
{
    law_buy_escrows_what_leaves_the_curve(ctx, clock, amount_in, min_tokens_out);
}

/// Every accepted sell keeps the curve well formed.
pub proof fn law_sell_keeps_curve_wf(ctx: Sell, tokens_in: u64, min_sol_out: u64)
    requires
        curve_wf(ctx.launch_state),
        sell_rejection(ctx, tokens_in, min_sol_out) is None,
    ensures
        curve_wf(launch_after_sell(ctx, tokens_in)),
{
    law_sell_fees_add_up(ctx, tokens_in, min_sol_out);
}

/// The curve's price (virtual SOL per virtual token) in `a` is at most its
/// price in `b`.
pub open spec fn price_at_most(a: LaunchState, b: LaunchState) -> bool {
    a.virtual_sol_reserves * b.virtual_token_reserves <= b.virtual_sol_reserves
        * a.virtual_token_reserves
}

/// The curve's price in `a` is below its price in `b`.
pub open spec fn price_below(a: LaunchState, b: LaunchState) -> bool {
    a.virtual_sol_reserves * b.virtual_token_reserves < b.virtual_sol_reserves
        * a.virtual_token_reserves
}

/// The price rises as SOL enters: an accepted buy never lowers it, and raises
/// it whenever the curve holds virtual SOL.
pub proof fn law_buy_raises_price(ctx: Buy, clock: Clock, amount_in: u64, min_tokens_out: u64)
    requires
        buy_rejection(ctx, clock, amount_in, min_tokens_out) is None,
    ensures
        price_at_most(ctx.launch_state, launch_after_buy(ctx, clock, amount_in)),
        ctx.launch_state.virtual_sol_reserves > 0 ==> price_below(
            ctx.launch_state,
            launch_after_buy(ctx, clock, amount_in),
        ),
{
    law_buy_escrows_what_leaves_the_curve(ctx, clock, amount_in, min_tokens_out);
    let vs = ctx.launch_state.virtual_sol_reserves as int;
    let vt = ctx.launch_state.virtual_token_reserves as int;
    let net = buy_net_sol(ctx, amount_in);
    let t = buy_tokens_out(ctx, amount_in);
    crate::state::lemma_curve_quotient_bounded(vs, vt, net);
    assert(vs * (vt - t) <= (vs + net) * vt) by (nonlinear_arith)
        requires
            0 <= vs,
            0 <= net,
            0 <= t <= vt,
    ;
    assert(vs > 0 ==> vs * (vt - t) < (vs + net) * vt) by (nonlinear_arith)
        requires
            0 <= net,
            0 < t <= vt,
    ;
}

/// The price drops as tokens are sold back: an accepted sell never raises it,
/// and lowers it whenever the curve holds virtual SOL.
pub proof fn law_sell_lowers_price(ctx: Sell, tokens_in: u64, min_sol_out: u64)
    requires
        sell_rejection(ctx, tokens_in, min_sol_out) is None,
    ensures
        price_at_most(launch_after_sell(ctx, tokens_in), ctx.launch_state),
        ctx.launch_state.virtual_sol_reserves > 0 ==> price_below(
            launch_after_sell(ctx, tokens_in),
            ctx.launch_state,
        ),
{
    law_sell_fees_add_up(ctx, tokens_in, min_sol_out);
    let vs = ctx.launch_state.virtual_sol_reserves as int;
    let vt = ctx.launch_state.virtual_token_reserves as int;
    let g = sell_gross_sol(ctx, tokens_in);
    crate::state::lemma_curve_quotient_bounded(vt, vs, tokens_in as int);
    assert((vs - g) * vt <= vs * (vt + tokens_in)) by (nonlinear_arith)
        requires
            0 <= g <= vs,
            0 <= vt,
            0 <= tokens_in,
    ;
    assert(vs > 0 ==> (vs - g) * vt < vs * (vt + tokens_in)) by (nonlinear_arith)
        requires
            0 <= g <= vs,
            0 <= vt,
            0 < tokens_in,
    ;
}

/// The creator can never buy their own token: such a buy is always refused.
pub proof fn law_creator_cannot_buy(ctx: Buy, clock: Clock, amount_in: u64, min_tokens_out: u64)
    requires
        ctx.buyer@ == ctx.launch_state.creator@,
    ensures
        buy_rejection(ctx, clock, amount_in, min_tokens_out) is Some,
{
}

/// No accepted buy takes a wallet above 4% of the total supply.
pub proof fn law_max_wallet_cap(ctx: Buy, clock: Clock, amount_in: u64, min_tokens_out: u64)
    requires
        buy_rejection(ctx, clock, amount_in, min_tokens_out) is None,
    ensures
        tracker_after_buy(ctx, clock, amount_in).total_purchased <= spec_max_wallet_tokens(
            ctx.launch_state.total_supply as int,
        ),
{
}

/// Every buy lock opens 5 to 30 minutes after the buy, or 0 to 72 hours
/// after it when the buy is a penalty.
pub proof fn law_lock_windows(ctx: Buy, clock: Clock)
    ensures
        buy_is_penalty(ctx, clock) ==> PENALTY_LOCK_MIN <= buy_lock_duration(ctx, clock)
            < PENALTY_LOCK_MAX,
        !buy_is_penalty(ctx, clock) ==> BUYER_LOCK_MIN <= buy_lock_duration(ctx, clock)
            < BUYER_LOCK_MAX,
{
}

/// The creator lock opens 1 to 24 hours after the launch.
pub proof fn law_creator_lock_window(ctx: CreateLaunch, clock: Clock)
    ensures
        CREATOR_LOCK_MIN <= create_launch_lock_duration(ctx, clock) < CREATOR_LOCK_MAX,
{
}

/// Every buyer of a slot in which two wallets buy gets a penalty lock: when
/// a second wallet buys in the slot of an accepted first buy (the slot's
/// first), its own lock is a penalty lock and the first buy's lock, passed
/// in as the slot's lock, is relocked as a penalty lock.
pub proof fn law_same_block_penalizes_all_buyers(
    first: Buy,
    clock: Clock,
    amount_in: u64,
    min_tokens_out: u64,
    second: Buy,
    later: Clock,
    amount_in2: u64,
    min_tokens_out2: u64,
)
    requires
        buy_starts_slot(first, clock.slot),
        buy_rejection(first, clock, amount_in, min_tokens_out) is None,
        buy_stats_fit(first, amount_in),
        second.launch_state == launch_after_buy(first, clock, amount_in),
        later.slot == clock.slot,
        second.buyer@ != first.buyer@,
        buy_rejection(second, later, amount_in2, min_tokens_out2) is None,
    ensures
        buy_is_penalty(second, later),
        buy_penalizes_slot(second, later.slot),
        slot_locks_after_buy(second, later).len() == 1,
        slot_locks_after_buy(second, later)[0].lock_id == lock_of_buy(
            first,
            clock,
            amount_in,
        ).lock_id,
        slot_locks_after_buy(second, later)[0].is_penalty,
        slot_first_tracker_after_buy(second, later)->Some_0.flagged,
{
    assert(slot_accounts_match(second));
    assert(second.slot_locks@.len() == 1);
    assert(second.slot_locks@[0].lock_id == second.launch_state.slot_first_lock_id + 0);
}

/// Once a slot has two or more wallets, every later buy in it is a penalty buy.
pub proof fn law_crowded_slot_penalty(ctx: Buy, clock: Clock)
    requires
        ctx.launch_state.last_buy_slot == clock.slot,
        ctx.launch_state.buys_in_current_slot >= SAME_BLOCK_THRESHOLD,
    ensures
        buy_is_penalty(ctx, clock),
{
}

/// Unique wallets are counted: a second buy of the same (unflagged) wallet in
/// the slot of its own earlier buy neither raises the slot's count nor gets
/// a penalty lock.
pub proof fn law_repeat_buy_same_slot(
    first: Buy,
    clock: Clock,
    amount_in: u64,
    min_tokens_out: u64,
    second: Buy,
    later: Clock,
)
    requires
        buy_starts_slot(first, clock.slot),
        !first.wallet_tracker.flagged,
        buy_rejection(first, clock, amount_in, min_tokens_out) is None,
        second.launch_state == launch_after_buy(first, clock, amount_in),
        second.wallet_tracker == tracker_after_buy(first, clock, amount_in),
        second.buyer@ == first.buyer@,
        later.slot == clock.slot,
    ensures
        buys_in_slot_after(second, later.slot) == 1,
        !buy_is_penalty(second, later),
        !buy_penalizes_slot(second, later.slot),
{
}

/// Flagging is permanent: a flagged wallet's every buy is a penalty buy and
/// leaves it flagged, whatever its past.
pub proof fn law_flag_is_permanent(ctx: Buy, clock: Clock, amount_in: u64)
    requires
        ctx.wallet_tracker.flagged,
    ensures
        buy_is_penalty(ctx, clock),
        tracker_after_buy(ctx, clock, amount_in).flagged,
{
}

/// No buy clears a flag: the buyer's and the slot's first wallet stay flagged.
pub proof fn law_buy_never_clears_flags(ctx: Buy, clock: Clock, amount_in: u64)
    ensures
        ctx.wallet_tracker.flagged ==> tracker_after_buy(ctx, clock, amount_in).flagged,
        ctx.slot_first_tracker matches Some(t) && t.flagged ==> slot_first_tracker_after_buy(
            ctx,
            clock,
        )->Some_0.flagged,
{
}

/// An accepted flagging marks both wallets, after which every buy of either
/// is a penalty buy; flagging them again is accepted and changes nothing.
pub proof fn law_flagging(ctx: FlagSameFunder, buy: Buy, clock: Clock)
    requires
        flag_same_funder_rejection(ctx) is None,
        buy.wallet_tracker == (WalletTracker { flagged: true, ..ctx.tracker_a }) || buy.wallet_tracker
            == (WalletTracker { flagged: true, ..ctx.tracker_b }),
    ensures
        buy_is_penalty(buy, clock),
        flag_same_funder_rejection(
            FlagSameFunder {
                tracker_a: WalletTracker { flagged: true, ..ctx.tracker_a },
                tracker_b: WalletTracker { flagged: true, ..ctx.tracker_b },
                ..ctx
            },
        ) is None,
        (WalletTracker { flagged: true, ..WalletTracker { flagged: true, ..ctx.tracker_a } })
            == (WalletTracker { flagged: true, ..ctx.tracker_a }),
{
}

/// Fees and what enters the curve add up to what the buyer pays; with fees
/// within the cap, a buy is never refused for its fees.
pub proof fn law_buy_fees_add_up(ctx: Buy, amount_in: u64)
    requires
        config_fees_capped(ctx.protocol_config),
    ensures
        buy_platform_fee(ctx, amount_in) + buy_creator_fee(ctx, amount_in) <= amount_in,
        buy_net_sol(ctx, amount_in) + buy_platform_fee(ctx, amount_in) + buy_creator_fee(
            ctx,
            amount_in,
        ) == amount_in,
{
    assert(amount_in * ctx.protocol_config.platform_fee_bps <= amount_in * 500) by (nonlinear_arith)
        requires
            ctx.protocol_config.platform_fee_bps <= 500,
    ;
    assert(amount_in * ctx.protocol_config.creator_fee_bps <= amount_in * 500) by (nonlinear_arith)
        requires
            ctx.protocol_config.creator_fee_bps <= 500,
    ;
}

/// Fees and what the seller receives add up to what the curve pays out.
pub proof fn law_sell_fees_add_up(ctx: Sell, tokens_in: u64, min_sol_out: u64)
    requires
        sell_rejection(ctx, tokens_in, min_sol_out) is None,
    ensures
        sell_net_sol(ctx, tokens_in) + sell_platform_fee(ctx, tokens_in) + sell_creator_fee(
            ctx,
            tokens_in,
        ) == sell_gross_sol(ctx, tokens_in),
        sell_gross_sol(ctx, tokens_in) <= ctx.launch_state.real_sol_reserves,
{
    crate::state::lemma_curve_quotient_bounded(
        ctx.launch_state.virtual_token_reserves as int,
        ctx.launch_state.virtual_sol_reserves as int,
        tokens_in as int,
    );
}

/// The tokens of an accepted buy leave the curve's real reserve and enter the
/// buyer's lock: reserve plus escrow is unchanged.
pub proof fn law_buy_escrows_what_leaves_the_curve(
    ctx: Buy,
    clock: Clock,
    amount_in: u64,
    min_tokens_out: u64,
)
    requires
        buy_rejection(ctx, clock, amount_in, min_tokens_out) is None,
    ensures
        0 < buy_tokens_out(ctx, amount_in) <= ctx.launch_state.real_token_reserves,
        launch_after_buy(ctx, clock, amount_in).real_token_reserves + buy_tokens_out(
            ctx,
            amount_in,
        ) == ctx.launch_state.real_token_reserves,
        tracker_after_buy(ctx, clock, amount_in).locked_balance == ctx.wallet_tracker.locked_balance
            + buy_tokens_out(ctx, amount_in),
        launch_after_buy(ctx, clock, amount_in).real_sol_reserves == ctx.launch_state.real_sol_reserves
            + buy_net_sol(ctx, amount_in),
{
    crate::state::lemma_curve_quotient_bounded(
        ctx.launch_state.virtual_sol_reserves as int,
        ctx.launch_state.virtual_token_reserves as int,
        buy_net_sol(ctx, amount_in),
    );
}

/// A buyer lock is claimed at most once: after an accepted claim, claiming
/// it again is refused as already claimed.
pub proof fn law_buyer_lock_claimed_once(ctx: ClaimBuyerLock, clock: Clock, later: Clock)
    requires
        claim_buyer_lock_rejection(ctx, clock) is None,
    ensures
        claim_buyer_lock_rejection(
            ClaimBuyerLock {
                buyer_lock: crate::state::BuyerLock { claimed: true, ..ctx.buyer_lock },
                ..ctx
            },
            later,
        ) == Some(VaultpadError::AlreadyClaimed),
{
}

/// No lock is claimed before its unlock time.
pub proof fn law_no_claim_before_unlock(ctx: ClaimBuyerLock, clock: Clock)
    requires
        claim_buyer_lock_rejection(ctx, clock) is None,
    ensures
        clock.unix_timestamp >= ctx.buyer_lock.unlock_time,
        !ctx.buyer_lock.claimed,
        ctx.buyer_lock.buyer@ == ctx.buyer@,
{
}

/// The creator lock is claimed at most once, and never before it opens.
pub proof fn law_creator_lock_claimed_once(ctx: ClaimCreatorLock, clock: Clock, later: Clock)
    requires
        claim_creator_lock_rejection(ctx, clock) is None,
    ensures
        clock.unix_timestamp >= ctx.launch_state.creator_lock_unlock_time,
        claim_creator_lock_rejection(
            ClaimCreatorLock {
                launch_state: crate::state::LaunchState {
                    creator_lock_claimed: true,
                    ..ctx.launch_state
                },
                ..ctx
            },
            later,
        ) == Some(VaultpadError::AlreadyClaimed),
{
}

/// A launch mints 10^15 base units (1B tokens of 6 decimals): 90% go to
/// the curve, 10% to the creator lock, and the wallet cap is 4% of it.
pub proof fn law_launch_supply_split()
    ensures
        spec_launch_supply() == 1_000_000_000_000_000,
        spec_creator_locked(spec_launch_supply()) == 100_000_000_000_000,
        spec_launch_supply() - spec_creator_locked(spec_launch_supply())
            == 900_000_000_000_000,
        spec_max_wallet_tokens(spec_launch_supply()) == 40_000_000_000_000,
{
    reveal_with_fuel(pow, 7);
}

/// Fees stay within the hard cap: initialization accepts only capped fees and
/// an accepted update keeps them capped.
pub proof fn law_fee_cap(
    init: InitializeProtocolParams,
    ctx: UpdateProtocol,
    params: UpdateProtocolParams,
)
    ensures
        initialize_protocol_rejection(init) is None ==> init.platform_fee_bps <= MAX_FEE_BPS
            && init.creator_fee_bps <= MAX_FEE_BPS,
        config_fees_capped(ctx.protocol_config) && update_protocol_rejection(ctx, params) is None
            ==> config_fees_capped(
            ProtocolConfig {
                platform_fee_bps: params.platform_fee_bps.unwrap_or(
                    ctx.protocol_config.platform_fee_bps,
                ),
                creator_fee_bps: params.creator_fee_bps.unwrap_or(
                    ctx.protocol_config.creator_fee_bps,
                ),
                ..ctx.protocol_config
            },
        ),
{
}

} // verus!
