//! What each instruction answers, stated on its inputs and results alone:
//! the rates each fee is taken at, the constant-product relation every
//! quote satisfies, the charity setup of a launch, and exactly which calls
//! the authority checks, claims, flaggings and withdrawals accept.
use vstd::prelude::*;
use vstd::arithmetic::div_mod::lemma_fundamental_div_mod;
use vstd::arithmetic::power::pow;
use crate::buy::{
    buy_outcome, buy_penalizes_slot, buy_rejection, lock_of_buy, slot_accounts_match, Buy,
    BuyReceipt,
};
use crate::claim_buyer_lock::{claim_buyer_lock_rejection, ClaimBuyerLock};
use crate::claim_creator_lock::{claim_creator_lock_rejection, ClaimCreatorLock};
use crate::create_launch::{
    create_launch_outcome, create_launch_rejection, CreateLaunch, CreateLaunchParams,
    CreateLaunchReceipt,
};
use crate::errors::VaultpadError;
use crate::flag_same_funder::{flag_same_funder_rejection, FlagSameFunder};
use crate::initialize_protocol::{initialize_protocol_rejection, InitializeProtocolParams};
use crate::sell::{sell_outcome, sell_rejection, Sell, SellReceipt};
use crate::state::{curve_out, Clock};
use crate::update_protocol::{update_protocol_rejection, UpdateProtocol, UpdateProtocolParams};
use crate::withdraw_charity::{withdraw_charity_rejection, WithdrawCharity};

verus! {

/// The all-zero address.
pub open spec fn zero_address() -> Seq<u8> {
    Seq::new(32, |_i: int| 0u8)
}

/// A quote `out` for paying `dx` into a constant-product curve with reserves
/// `(x, y)`, capped at `cap`: it never exceeds the cap; below the cap it is
/// the largest amount that keeps the product `x * y` (the pool keeps
/// `y - out` with `(x + dx) * (y - out) <= x * y < (x + dx) * (y - out + 1)`);
/// at the cap, the uncapped quote would have reached it.
pub open spec fn is_constant_product_quote(x: int, y: int, dx: int, cap: int, out: int) -> bool {
    &&& out <= cap
    &&& out < cap ==> (x + dx) * (y - out) <= x * y < (x + dx) * (y - out + 1)
    &&& out == cap ==> x * y < (x + dx) * (y - cap + 1)
}

/// Every curve quote is a constant-product quote.
pub proof fn law_curve_quote(x: int, y: int, dx: int, cap: int)
    requires
        0 <= x,
        0 <= y,
        0 <= dx,
        0 < x + dx,
    ensures
        is_constant_product_quote(x, y, dx, cap, curve_out(x, y, dx, cap)),
{
    let d = x + dx;
    let q = (x * y) / d;
    let r = (x * y) % d;
    lemma_fundamental_div_mod(x * y, d);
    assert(0 <= r < d);
    assert(d * q == q * d) by (nonlinear_arith);
    assert(d * (q + 1) == d * q + d) by (nonlinear_arith);
    let out = curve_out(x, y, dx, cap);
    if y - q < cap {
        assert(y - out == q);
    } else {
        assert(out == cap);
        assert(d * (q + 1) <= d * (y - cap + 1)) by (nonlinear_arith)
            requires
                q <= y - cap,
                0 < d,
        ;
    }
}

/// An accepted buy takes each fee at its own configured rate, puts the rest
/// into the curve, and sends the creator fee to the charity exactly for cause
/// tokens (category 2).
pub proof fn law_buy_fee_rates(
    pre: Buy,
    post: Buy,
    clock: Clock,
    amount_in: u64,
    min_tokens_out: u64,
    r: Result<BuyReceipt, VaultpadError>,
)
    requires
        buy_outcome(pre, post, clock, amount_in, min_tokens_out, r),
        r is Ok,
    ensures
        r->Ok_0.platform_fee == ((amount_in as int * pre.protocol_config.platform_fee_bps as int)
            / 10_000) as u64,
        r->Ok_0.creator_fee == ((amount_in as int * pre.protocol_config.creator_fee_bps as int)
            / 10_000) as u64,
        r->Ok_0.net_sol + r->Ok_0.platform_fee + r->Ok_0.creator_fee == amount_in,
        r->Ok_0.creator_fee_to_charity == (pre.launch_state.category == 2),
        post.launch_state.real_sol_reserves == pre.launch_state.real_sol_reserves
            + r->Ok_0.net_sol,
        post.launch_state.virtual_sol_reserves == pre.launch_state.virtual_sol_reserves
            + r->Ok_0.net_sol,
        post.launch_state.fees_generated == pre.launch_state.fees_generated
            + r->Ok_0.platform_fee + r->Ok_0.creator_fee,
        post.protocol_config.total_fees_collected == pre.protocol_config.total_fees_collected
            + r->Ok_0.platform_fee + r->Ok_0.creator_fee,
        post.protocol_config.platform_fee_bps == pre.protocol_config.platform_fee_bps,
        post.protocol_config.creator_fee_bps == pre.protocol_config.creator_fee_bps,
{
}

/// A buy is accepted exactly when: the launch is not graduated and the
/// platform and creator wallets passed in are the configured ones; the buyer
/// is not the creator; the amount is positive and covers both fees (each at
/// its own rate); the curve can quote the net amount, giving at least
/// `min_tokens_out` and at least one token; the buyer's total stays within
/// 4% of the supply; when this buy brings its slot to two wallets the slot's
/// earlier locks and first tracker are passed; and the balances it adds to
/// do not overflow.
pub proof fn law_buy_acceptance(ctx: Buy, clock: Clock, amount_in: u64, min_tokens_out: u64)
    ensures
        buy_rejection(ctx, clock, amount_in, min_tokens_out) is None <==> ({
            let l = ctx.launch_state;
            let pf = ((amount_in as int * ctx.protocol_config.platform_fee_bps as int) / 10_000) as u64;
            let cf = ((amount_in as int * ctx.protocol_config.creator_fee_bps as int) / 10_000) as u64;
            let net = amount_in - pf - cf;
            let out = curve_out(
                l.virtual_sol_reserves as int,
                l.virtual_token_reserves as int,
                net,
                l.real_token_reserves as int,
            );
            &&& !l.graduated
            &&& ctx.platform_wallet@ == ctx.protocol_config.platform_wallet@
            &&& ctx.creator_wallet@ == l.creator@
            &&& ctx.buyer@ != l.creator@
            &&& amount_in > 0
            &&& pf + cf <= amount_in
            &&& !(l.virtual_sol_reserves == 0 && net == 0)
            &&& out >= min_tokens_out
            &&& out > 0
            &&& ctx.wallet_tracker.total_purchased + out <= l.total_supply as int * 400 / 10_000
            &&& (buy_penalizes_slot(ctx, clock.slot) ==> slot_accounts_match(ctx))
            &&& ctx.wallet_tracker.locked_balance + out <= u64::MAX
            &&& l.virtual_sol_reserves + net <= u64::MAX
            &&& l.real_sol_reserves + net <= u64::MAX
        }),
{
    let l = ctx.launch_state;
    let supply = l.total_supply as int;
    assert(supply * 400 / 10_000 <= u64::MAX);
    assert(0 <= amount_in as int * ctx.protocol_config.platform_fee_bps as int) by (nonlinear_arith);
    assert(0 <= amount_in as int * ctx.protocol_config.creator_fee_bps as int) by (nonlinear_arith);
}

/// A sell is accepted exactly when: the launch is not graduated and the
/// platform and creator wallets passed in are the configured ones; a
/// positive amount of tokens is sold that the seller holds; the curve's
/// quote covers both fees (each at its own rate) and leaves the seller at
/// least `min_sol_out`; and the token reserves do not overflow.
pub proof fn law_sell_acceptance(ctx: Sell, tokens_in: u64, min_sol_out: u64)
    ensures
        sell_rejection(ctx, tokens_in, min_sol_out) is None <==> ({
            let l = ctx.launch_state;
            let g = curve_out(
                l.virtual_token_reserves as int,
                l.virtual_sol_reserves as int,
                tokens_in as int,
                l.real_sol_reserves as int,
            );
            let pf = ((g as u64 as int * ctx.protocol_config.platform_fee_bps as int) / 10_000) as u64;
            let cf = ((g as u64 as int * ctx.protocol_config.creator_fee_bps as int) / 10_000) as u64;
            &&& !l.graduated
            &&& ctx.platform_wallet@ == ctx.protocol_config.platform_wallet@
            &&& ctx.creator_wallet@ == l.creator@
            &&& tokens_in > 0
            &&& ctx.seller_token_amount >= tokens_in
            &&& pf + cf <= g
            &&& g - pf - cf >= min_sol_out
            &&& l.virtual_token_reserves + tokens_in <= u64::MAX
            &&& l.real_token_reserves + tokens_in <= u64::MAX
        }),
{
    let l = ctx.launch_state;
    if tokens_in > 0 {
        crate::state::lemma_curve_quotient_bounded(
            l.virtual_token_reserves as int,
            l.virtual_sol_reserves as int,
            tokens_in as int,
        );
        let g = curve_out(
            l.virtual_token_reserves as int,
            l.virtual_sol_reserves as int,
            tokens_in as int,
            l.real_sol_reserves as int,
        );
        assert(0 <= g * ctx.protocol_config.platform_fee_bps as int) by (nonlinear_arith)
            requires
                0 <= g,
        ;
        assert(0 <= g * ctx.protocol_config.creator_fee_bps as int) by (nonlinear_arith)
            requires
                0 <= g,
        ;
    }
}

/// An accepted buy escrows a constant-product quote for its net amount: the
/// tokens leave both reserves and land in a fresh, unclaimed lock of the
/// buyer, numbered by the launch's lock counter, opening after the drawn
/// duration (0-72 h for a penalty lock, 5-30 min otherwise); the buyer is
/// not the creator and stays within 4% of the supply.
pub proof fn law_buy_escrow(
    pre: Buy,
    post: Buy,
    clock: Clock,
    amount_in: u64,
    min_tokens_out: u64,
    r: Result<BuyReceipt, VaultpadError>,
)
    requires
        buy_outcome(pre, post, clock, amount_in, min_tokens_out, r),
        r is Ok,
    ensures
        ({
            let lock = r->Ok_0.buyer_lock;
            let l = pre.launch_state;
            &&& is_constant_product_quote(
                l.virtual_sol_reserves as int,
                l.virtual_token_reserves as int,
                r->Ok_0.net_sol as int,
                l.real_token_reserves as int,
                lock.amount as int,
            )
            &&& 0 < lock.amount
            &&& min_tokens_out <= lock.amount
            &&& post.launch_state.real_token_reserves == l.real_token_reserves - lock.amount
            &&& post.launch_state.virtual_token_reserves == l.virtual_token_reserves - lock.amount
            &&& lock.buyer == pre.buyer
            &&& lock.mint == l.mint
            &&& lock.lock_id == l.total_locks_created
            &&& post.launch_state.total_locks_created == l.total_locks_created + 1
            &&& !lock.claimed
            &&& lock.created_at == clock.unix_timestamp
            &&& lock.unlock_time == clock.unix_timestamp + r->Ok_0.lock_duration
            &&& lock.is_penalty ==> 0 <= r->Ok_0.lock_duration < 259_200
            &&& !lock.is_penalty ==> 300 <= r->Ok_0.lock_duration < 1800
            &&& pre.wallet_tracker.flagged ==> lock.is_penalty
            &&& post.wallet_tracker.flagged == (pre.wallet_tracker.flagged || lock.is_penalty)
            &&& post.wallet_tracker.locked_balance == pre.wallet_tracker.locked_balance
                + lock.amount
            &&& post.wallet_tracker.total_purchased == pre.wallet_tracker.total_purchased
                + lock.amount
            &&& post.wallet_tracker.total_purchased <= l.total_supply as int * 400 / 10_000
            &&& pre.buyer@ != l.creator@
            &&& amount_in > 0
        }),
{
    let l = pre.launch_state;
    law_curve_quote(
        l.virtual_sol_reserves as int,
        l.virtual_token_reserves as int,
        r->Ok_0.net_sol as int,
        l.real_token_reserves as int,
    );
    crate::state::lemma_curve_quotient_bounded(
        l.virtual_sol_reserves as int,
        l.virtual_token_reserves as int,
        r->Ok_0.net_sol as int,
    );
    assert(r->Ok_0.buyer_lock == lock_of_buy(pre, clock, amount_in));
}

/// An accepted sell pays a constant-product quote for the tokens, capped at
/// the real SOL reserve, takes each fee from it at its own configured rate,
/// and pays the seller the rest.
pub proof fn law_sell_fee_rates(
    pre: Sell,
    post: Sell,
    tokens_in: u64,
    min_sol_out: u64,
    r: Result<SellReceipt, VaultpadError>,
)
    requires
        sell_outcome(pre, post, tokens_in, min_sol_out, r),
        r is Ok,
    ensures
        ({
            let g = r->Ok_0.gross_sol;
            let l = pre.launch_state;
            &&& is_constant_product_quote(
                l.virtual_token_reserves as int,
                l.virtual_sol_reserves as int,
                tokens_in as int,
                l.real_sol_reserves as int,
                g as int,
            )
            &&& r->Ok_0.platform_fee == ((g as int * pre.protocol_config.platform_fee_bps as int)
                / 10_000) as u64
            &&& r->Ok_0.creator_fee == ((g as int * pre.protocol_config.creator_fee_bps as int)
                / 10_000) as u64
            &&& r->Ok_0.net_sol + r->Ok_0.platform_fee + r->Ok_0.creator_fee == g
            &&& min_sol_out <= r->Ok_0.net_sol
            &&& r->Ok_0.creator_fee_to_charity == (l.category == 2)
            &&& 0 < tokens_in <= pre.seller_token_amount
            &&& r->Ok_0.tokens_in == tokens_in
            &&& post.launch_state.real_sol_reserves == l.real_sol_reserves - g
            &&& post.launch_state.real_token_reserves == l.real_token_reserves + tokens_in
            &&& post.launch_state.fees_generated == l.fees_generated + r->Ok_0.platform_fee
                + r->Ok_0.creator_fee
        }),
{
    let l = pre.launch_state;
    law_curve_quote(
        l.virtual_token_reserves as int,
        l.virtual_sol_reserves as int,
        tokens_in as int,
        l.real_sol_reserves as int,
    );
    crate::state::lemma_curve_quotient_bounded(
        l.virtual_token_reserves as int,
        l.virtual_sol_reserves as int,
        tokens_in as int,
    );
}

/// An accepted launch sets up a charity exactly for a cause token (category
/// 2): its charity wallet is the charity account passed in and its authority
/// the one asked for, or the creator; any other category gets the all-zero
/// address for both. It mints 10^15 base units, puts 90% on the curve with
/// 0.5 SOL of virtual SOL, locks 10% for the creator for 1 to 24 hours.
pub proof fn law_launch_setup(
    pre: CreateLaunch,
    post: CreateLaunch,
    clock: Clock,
    params: CreateLaunchParams,
    r: Result<CreateLaunchReceipt, VaultpadError>,
)
    requires
        create_launch_outcome(pre, post, clock, params, r),
        r is Ok,
    ensures
        ({
            let l = r->Ok_0.launch_state;
            &&& params.category != 2 ==> l.charity_wallet@ == zero_address()
                && l.charity_authority@ == zero_address()
            &&& params.category == 2 ==> l.charity_wallet@ == pre.charity_wallet@
            &&& params.category == 2 && params.charity_authority is Some
                ==> l.charity_authority@ == params.charity_authority->Some_0@
            &&& params.category == 2 && params.charity_authority is None
                ==> l.charity_authority@ == pre.creator@
            &&& l.category == params.category
            &&& params.category <= 3
            &&& r->Ok_0.minted_supply == 1_000_000_000_000_000
            &&& l.total_supply == 1_000_000_000_000_000
            &&& l.virtual_token_reserves == 1_000_000_000_000_000
            &&& l.real_token_reserves == 900_000_000_000_000
            &&& l.creator_locked_tokens == 100_000_000_000_000
            &&& l.virtual_sol_reserves == 500_000_000
            &&& l.real_sol_reserves == 0
            &&& clock.unix_timestamp + 3600 <= l.creator_lock_unlock_time < clock.unix_timestamp
                + 86_400
            &&& l.creator@ == pre.creator@
            &&& l.mint@ == pre.mint@
            &&& r->Ok_0.launch_cost == pre.protocol_config.launch_cost
            &&& post.protocol_config.total_launches == pre.protocol_config.total_launches + 1
        }),
{
    reveal_with_fuel(pow, 7);
}

/// A launch is refused exactly when the platform wallet passed in is not the
/// configured one, a name, ticker, uri or handle is longer than 32, 10, 200
/// or 64 characters, or the category is not 0 to 3.
pub proof fn law_launch_acceptance(ctx: CreateLaunch, params: CreateLaunchParams)
    ensures
        create_launch_rejection(ctx, params) is None <==> {
            &&& ctx.platform_wallet@ == ctx.protocol_config.platform_wallet@
            &&& params.name@.len() <= 32
            &&& params.ticker@.len() <= 10
            &&& params.uri@.len() <= 200
            &&& params.fee_redirect_handle@.len() <= 64
            &&& params.category <= 3
        },
{
}

/// Initialization is refused exactly when a fee is above 500 bps.
pub proof fn law_initialize_acceptance(params: InitializeProtocolParams)
    ensures
        initialize_protocol_rejection(params) is None <==> (params.platform_fee_bps <= 500
            && params.creator_fee_bps <= 500),
        initialize_protocol_rejection(params) is Some ==> initialize_protocol_rejection(params)
            == Some(VaultpadError::FeeTooHigh),
{
}

/// An update is accepted exactly when the signer is the authority and every
/// fee it sets is at most 500 bps; a non-authority is refused as unauthorized
/// and an authority's fee above 500 bps as too high.
pub proof fn law_update_acceptance(ctx: UpdateProtocol, params: UpdateProtocolParams)
    ensures
        update_protocol_rejection(ctx, params) is None <==> {
            &&& ctx.authority@ == ctx.protocol_config.authority@
            &&& (params.platform_fee_bps matches Some(b) ==> b <= 500)
            &&& (params.creator_fee_bps matches Some(b) ==> b <= 500)
        },
        ctx.authority@ != ctx.protocol_config.authority@ ==> update_protocol_rejection(
            ctx,
            params,
        ) == Some(VaultpadError::Unauthorized),
        ctx.authority@ == ctx.protocol_config.authority@ && update_protocol_rejection(
            ctx,
            params,
        ) is Some ==> update_protocol_rejection(ctx, params) == Some(VaultpadError::FeeTooHigh),
{
}

/// A claim is accepted exactly when the signer owns the lock, the lock is of
/// this launch, unclaimed and non-empty, its unlock time has come (whatever
/// kind of lock it is and whenever it was made), and the claimed balance
/// does not overflow.
pub proof fn law_claim_acceptance(ctx: ClaimBuyerLock, clock: Clock)
    ensures
        claim_buyer_lock_rejection(ctx, clock) is None <==> {
            &&& ctx.buyer_lock.buyer@ == ctx.buyer@
            &&& ctx.buyer_lock.mint@ == ctx.launch_state.mint@
            &&& !ctx.buyer_lock.claimed
            &&& clock.unix_timestamp >= ctx.buyer_lock.unlock_time
            &&& ctx.buyer_lock.amount > 0
            &&& ctx.wallet_tracker.claimed_balance + ctx.buyer_lock.amount <= u64::MAX
        },
        ctx.buyer_lock.buyer@ == ctx.buyer@ && ctx.buyer_lock.mint@ == ctx.launch_state.mint@
            && !ctx.buyer_lock.claimed && clock.unix_timestamp < ctx.buyer_lock.unlock_time
            ==> claim_buyer_lock_rejection(ctx, clock) == Some(VaultpadError::LockNotExpired),
{
}

/// The creator's claim is accepted exactly when the signer is the creator,
/// the lock is unclaimed and non-empty and its unlock time has come.
pub proof fn law_creator_claim_acceptance(ctx: ClaimCreatorLock, clock: Clock)
    ensures
        claim_creator_lock_rejection(ctx, clock) is None <==> {
            &&& ctx.creator@ == ctx.launch_state.creator@
            &&& !ctx.launch_state.creator_lock_claimed
            &&& clock.unix_timestamp >= ctx.launch_state.creator_lock_unlock_time
            &&& ctx.launch_state.creator_locked_tokens > 0
        },
{
}

/// A flagging is accepted exactly when both trackers are of this launch,
/// of two different wallets, with the same funder, which is not the zero
/// address.
pub proof fn law_flag_acceptance(ctx: FlagSameFunder)
    ensures
        flag_same_funder_rejection(ctx) is None <==> {
            &&& ctx.tracker_a.mint@ == ctx.launch_state.mint@
            &&& ctx.tracker_b.mint@ == ctx.launch_state.mint@
            &&& ctx.tracker_a.wallet@ != ctx.tracker_b.wallet@
            &&& ctx.tracker_a.funder@ == ctx.tracker_b.funder@
            &&& ctx.tracker_a.funder@ != zero_address()
        },
{
}

/// A withdrawal is accepted exactly when the signer is the charity
/// authority, the token is a cause token (category 2), and the amount leaves
/// at least the rent-exempt minimum in the charity wallet.
pub proof fn law_withdraw_acceptance(ctx: WithdrawCharity, amount: u64)
    ensures
        withdraw_charity_rejection(ctx, amount) is None <==> {
            &&& ctx.authority@ == ctx.launch_state.charity_authority@
            &&& ctx.launch_state.category == 2
            &&& amount + ctx.rent_exempt_minimum <= ctx.charity_balance
        },
{
}

} // verus!
