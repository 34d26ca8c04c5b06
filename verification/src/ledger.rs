//! Token and lamport accounting across instructions: the token vault holds
//! exactly the curve's real reserve, the unclaimed creator lock and the
//! unclaimed buyer locks; a wallet tracker's balances are the sums of its
//! locks; the SOL vault moves with the real SOL reserve; and a buy sold
//! straight back returns what entered the curve, to within one lamport.
use vstd::prelude::*;
use vstd::arithmetic::div_mod::{lemma_div_by_multiple, lemma_div_is_ordered, lemma_fundamental_div_mod};
use vstd::arithmetic::mul::lemma_mul_is_commutative;
use crate::buy::{
    buy_net_sol, buy_rejection, launch_after_buy, lock_of_buy, slot_locks_after_buy,
    tracker_after_buy, Buy,
};
use crate::claim_buyer_lock::{claim_buyer_lock_rejection, ClaimBuyerLock};
use crate::claim_creator_lock::{claim_creator_lock_rejection, ClaimCreatorLock};
use crate::create_launch::{is_created_launch, spec_launch_supply, CreateLaunch, CreateLaunchParams};
use crate::sell::{
    launch_after_sell, sell_creator_fee, sell_gross_sol, sell_net_sol, sell_platform_fee,
    sell_rejection, Sell,
};
use crate::state::{
    curve_out, lemma_curve_quotient_bounded, spec_max_wallet_tokens, BuyerLock, Clock, LaunchState,
    WalletTracker,
};

verus! {

/// What a lock counts for in a sum: its amount, when it belongs to `wallet`
/// (any wallet when `None`) and, if `unclaimed_only`, is not claimed yet.
pub open spec fn lock_weight(l: BuyerLock, wallet: Option<Seq<u8>>, unclaimed_only: bool) -> int {
    if (wallet matches Some(w) && l.buyer@ != w) || (unclaimed_only && l.claimed) {
        0
    } else {
        l.amount as int
    }
}

/// The sum of `lock_weight` over a sequence of locks.
pub open spec fn lock_total(locks: Seq<BuyerLock>, wallet: Option<Seq<u8>>, unclaimed_only: bool) -> int
    decreases locks.len(),
{
    if locks.len() == 0 {
        0
    } else {
        lock_total(locks.drop_last(), wallet, unclaimed_only) + lock_weight(
            locks.last(),
            wallet,
            unclaimed_only,
        )
    }
}

/// Two locks count the same in every sum.
pub open spec fn same_balance(a: BuyerLock, b: BuyerLock) -> bool {
    a.amount == b.amount && a.claimed == b.claimed && a.buyer@ == b.buyer@
}

/// The token vault holds the real reserve, the unclaimed creator lock and
/// the unclaimed buyer locks (`locks`: all buyer locks of the launch).
pub open spec fn vault_holds(vault: int, launch: LaunchState, locks: Seq<BuyerLock>) -> bool {
    vault == launch.real_token_reserves + (if launch.creator_lock_claimed {
        0
    } else {
        launch.creator_locked_tokens as int
    }) + lock_total(locks, None, true)
}

/// A tracker's locked balance is the sum of the wallet's unclaimed locks.
pub open spec fn locked_matches_locks(t: WalletTracker, locks: Seq<BuyerLock>, wallet: Seq<u8>) -> bool {
    t.locked_balance == lock_total(locks, Some(wallet), true)
}

/// A tracker's total purchased is the sum of all the wallet's locks.
pub open spec fn purchased_matches_locks(t: WalletTracker, locks: Seq<BuyerLock>, wallet: Seq<u8>) -> bool {
    t.total_purchased == lock_total(locks, Some(wallet), false)
}

/// The locks after a buy: the same balances for the existing locks (some
/// possibly relocked), then the new lock.
pub open spec fn locks_after_buy(locks: Seq<BuyerLock>, after: Seq<BuyerLock>, new_lock: BuyerLock) -> bool {
    &&& after.len() == locks.len() + 1
    &&& forall|i: int| 0 <= i < locks.len() ==> same_balance(#[trigger] locks[i], after[i])
    &&& after.last() == new_lock
}

proof fn lemma_total_nonneg(locks: Seq<BuyerLock>, wallet: Option<Seq<u8>>, u: bool)
    ensures
        lock_total(locks, wallet, u) >= 0,
    decreases locks.len(),
{
    if locks.len() > 0 {
        lemma_total_nonneg(locks.drop_last(), wallet, u);
    }
}

proof fn lemma_total_same_balances(
    a: Seq<BuyerLock>,
    b: Seq<BuyerLock>,
    wallet: Option<Seq<u8>>,
    u: bool,
)
    requires
        a.len() == b.len(),
        forall|i: int| 0 <= i < a.len() ==> same_balance(#[trigger] a[i], b[i]),
    ensures
        lock_total(a, wallet, u) == lock_total(b, wallet, u),
    decreases a.len(),
{
    if a.len() > 0 {
        assert forall|i: int| 0 <= i < a.drop_last().len() implies same_balance(
            #[trigger] a.drop_last()[i],
            b.drop_last()[i],
        ) by {
            assert(same_balance(a[i], b[i]));
        }
        lemma_total_same_balances(a.drop_last(), b.drop_last(), wallet, u);
        assert(same_balance(a[a.len() - 1], b[b.len() - 1]));
    }
}

proof fn lemma_total_update(
    locks: Seq<BuyerLock>,
    i: int,
    x: BuyerLock,
    wallet: Option<Seq<u8>>,
    u: bool,
)
    requires
        0 <= i < locks.len(),
    ensures
        lock_total(locks.update(i, x), wallet, u) == lock_total(locks, wallet, u) - lock_weight(
            locks[i],
            wallet,
            u,
        ) + lock_weight(x, wallet, u),
    decreases locks.len(),
{
    let upd = locks.update(i, x);
    if i == locks.len() - 1 {
        assert(upd.drop_last() =~= locks.drop_last());
    } else {
        assert(upd.drop_last() =~= locks.drop_last().update(i, x));
        lemma_total_update(locks.drop_last(), i, x, wallet, u);
    }
}

proof fn lemma_total_ge_one(locks: Seq<BuyerLock>, i: int, wallet: Option<Seq<u8>>, u: bool)
    requires
        0 <= i < locks.len(),
    ensures
        lock_weight(locks[i], wallet, u) <= lock_total(locks, wallet, u),
{
    let zero = BuyerLock { amount: 0, ..locks[i] };
    lemma_total_update(locks, i, zero, wallet, u);
    lemma_total_nonneg(locks.update(i, zero), wallet, u);
}

proof fn lemma_total_after_buy(
    locks: Seq<BuyerLock>,
    after: Seq<BuyerLock>,
    new_lock: BuyerLock,
    wallet: Option<Seq<u8>>,
    u: bool,
)
    requires
        locks_after_buy(locks, after, new_lock),
    ensures
        lock_total(after, wallet, u) == lock_total(locks, wallet, u) + lock_weight(
            new_lock,
            wallet,
            u,
        ),
{
    assert(after.drop_last().len() == locks.len());
    assert forall|i: int| 0 <= i < locks.len() implies same_balance(
        #[trigger] locks[i],
        after.drop_last()[i],
    ) by {
        assert(same_balance(locks[i], after[i]));
    }
    lemma_total_same_balances(locks, after.drop_last(), wallet, u);
}

/// A new launch's vault holds its whole minted supply: nothing is locked for
/// buyers yet.
pub proof fn law_new_vault_holds_supply(
    launch: LaunchState,
    ctx: CreateLaunch,
    clock: Clock,
    params: CreateLaunchParams,
)
    requires
        is_created_launch(launch, ctx, clock, params),
    ensures
        vault_holds(spec_launch_supply(), launch, Seq::empty()),
{
    vstd::arithmetic::power::lemma_pow_positive(10, 6);
    reveal_with_fuel(vstd::arithmetic::power::pow, 7);
}

/// Relocking the slot's locks as penalty locks changes no balance and no id.
pub proof fn law_relocking_keeps_balances(ctx: Buy, clock: Clock)
    ensures
        slot_locks_after_buy(ctx, clock).len() == ctx.slot_locks@.len(),
        forall|i: int|
            0 <= i < ctx.slot_locks@.len() ==> same_balance(
                #[trigger] ctx.slot_locks@[i],
                slot_locks_after_buy(ctx, clock)[i],
            ) && slot_locks_after_buy(ctx, clock)[i].lock_id == ctx.slot_locks@[i].lock_id,
{
}

/// A buy moves no token in or out of the vault: the tokens that leave the
/// real reserve are the new lock's, so the vault invariant is kept.
pub proof fn law_buy_keeps_vault(
    ctx: Buy,
    clock: Clock,
    amount_in: u64,
    min_tokens_out: u64,
    vault: int,
    locks: Seq<BuyerLock>,
    after: Seq<BuyerLock>,
)
    requires
        buy_rejection(ctx, clock, amount_in, min_tokens_out) is None,
        vault_holds(vault, ctx.launch_state, locks),
        locks_after_buy(locks, after, lock_of_buy(ctx, clock, amount_in)),
    ensures
        vault_holds(vault, launch_after_buy(ctx, clock, amount_in), after),
{
    lemma_total_after_buy(locks, after, lock_of_buy(ctx, clock, amount_in), None, true);
    lemma_curve_quotient_bounded(
        ctx.launch_state.virtual_sol_reserves as int,
        ctx.launch_state.virtual_token_reserves as int,
        buy_net_sol(ctx, amount_in),
    );
}

/// A buy keeps the buyer's locked balance equal to the sum of the buyer's
/// unclaimed locks: both grow by the new lock's amount.
pub proof fn law_buy_keeps_locked_balance(
    ctx: Buy,
    clock: Clock,
    amount_in: u64,
    min_tokens_out: u64,
    locks: Seq<BuyerLock>,
    after: Seq<BuyerLock>,
)
    requires
        buy_rejection(ctx, clock, amount_in, min_tokens_out) is None,
        locked_matches_locks(ctx.wallet_tracker, locks, ctx.buyer@),
        locks_after_buy(locks, after, lock_of_buy(ctx, clock, amount_in)),
    ensures
        locked_matches_locks(tracker_after_buy(ctx, clock, amount_in), after, ctx.buyer@),
{
    lemma_total_after_buy(locks, after, lock_of_buy(ctx, clock, amount_in), Some(ctx.buyer@), true);
}

/// A buy keeps the buyer's total purchased equal to the sum of all the
/// buyer's locks, so over any run of accepted buys it is that sum and stays
/// within the 4% cap.
pub proof fn law_buy_keeps_total_purchased(
    ctx: Buy,
    clock: Clock,
    amount_in: u64,
    min_tokens_out: u64,
    locks: Seq<BuyerLock>,
    after: Seq<BuyerLock>,
)
    requires
        buy_rejection(ctx, clock, amount_in, min_tokens_out) is None,
        purchased_matches_locks(ctx.wallet_tracker, locks, ctx.buyer@),
        locks_after_buy(locks, after, lock_of_buy(ctx, clock, amount_in)),
    ensures
        purchased_matches_locks(tracker_after_buy(ctx, clock, amount_in), after, ctx.buyer@),
        tracker_after_buy(ctx, clock, amount_in).total_purchased <= spec_max_wallet_tokens(
            ctx.launch_state.total_supply as int,
        ),
{
    lemma_total_after_buy(
        locks,
        after,
        lock_of_buy(ctx, clock, amount_in),
        Some(ctx.buyer@),
        false,
    );
}

/// A claim moves exactly the lock's amount out of the vault and marks the
/// lock claimed, keeping the vault invariant.
pub proof fn law_claim_keeps_vault(
    ctx: ClaimBuyerLock,
    clock: Clock,
    vault: int,
    locks: Seq<BuyerLock>,
    i: int,
)
    requires
        claim_buyer_lock_rejection(ctx, clock) is None,
        0 <= i < locks.len(),
        locks[i] == ctx.buyer_lock,
        vault_holds(vault, ctx.launch_state, locks),
    ensures
        vault_holds(
            vault - ctx.buyer_lock.amount,
            ctx.launch_state,
            locks.update(i, BuyerLock { claimed: true, ..ctx.buyer_lock }),
        ),
{
    lemma_total_update(locks, i, BuyerLock { claimed: true, ..ctx.buyer_lock }, None, true);
}

/// A claim keeps the buyer's locked balance equal to the sum of the buyer's
/// unclaimed locks; the locked balance always covers the lock, so the
/// subtraction never clips.
pub proof fn law_claim_keeps_locked_balance(
    ctx: ClaimBuyerLock,
    clock: Clock,
    locks: Seq<BuyerLock>,
    i: int,
)
    requires
        claim_buyer_lock_rejection(ctx, clock) is None,
        0 <= i < locks.len(),
        locks[i] == ctx.buyer_lock,
        locked_matches_locks(ctx.wallet_tracker, locks, ctx.buyer@),
    ensures
        ctx.wallet_tracker.locked_balance >= ctx.buyer_lock.amount,
        ctx.wallet_tracker.locked_balance.saturating_sub(ctx.buyer_lock.amount)
            == ctx.wallet_tracker.locked_balance - ctx.buyer_lock.amount,
        locked_matches_locks(
            WalletTracker {
                locked_balance: ctx.wallet_tracker.locked_balance.saturating_sub(
                    ctx.buyer_lock.amount,
                ),
                claimed_balance: (ctx.wallet_tracker.claimed_balance + ctx.buyer_lock.amount) as u64,
                ..ctx.wallet_tracker
            },
            locks.update(i, BuyerLock { claimed: true, ..ctx.buyer_lock }),
            ctx.buyer@,
        ),
{
    let w = Some(ctx.buyer@);
    lemma_total_ge_one(locks, i, w, true);
    lemma_total_update(locks, i, BuyerLock { claimed: true, ..ctx.buyer_lock }, w, true);
}

/// A claim keeps the buyer's total purchased equal to the sum of all the
/// buyer's locks (a claimed lock still counts as purchased).
pub proof fn law_claim_keeps_total_purchased(
    ctx: ClaimBuyerLock,
    clock: Clock,
    locks: Seq<BuyerLock>,
    i: int,
)
    requires
        claim_buyer_lock_rejection(ctx, clock) is None,
        0 <= i < locks.len(),
        locks[i] == ctx.buyer_lock,
        purchased_matches_locks(ctx.wallet_tracker, locks, ctx.buyer@),
    ensures
        purchased_matches_locks(
            ctx.wallet_tracker,
            locks.update(i, BuyerLock { claimed: true, ..ctx.buyer_lock }),
            ctx.buyer@,
        ),
{
    lemma_total_update(
        locks,
        i,
        BuyerLock { claimed: true, ..ctx.buyer_lock },
        Some(ctx.buyer@),
        false,
    );
}

/// A sell moves exactly the sold tokens into the vault and onto the real
/// reserve, keeping the vault invariant.
pub proof fn law_sell_keeps_vault(
    ctx: Sell,
    tokens_in: u64,
    min_sol_out: u64,
    vault: int,
    locks: Seq<BuyerLock>,
)
    requires
        sell_rejection(ctx, tokens_in, min_sol_out) is None,
        vault_holds(vault, ctx.launch_state, locks),
    ensures
        vault_holds(vault + tokens_in, launch_after_sell(ctx, tokens_in), locks),
{
    lemma_curve_quotient_bounded(
        ctx.launch_state.virtual_token_reserves as int,
        ctx.launch_state.virtual_sol_reserves as int,
        tokens_in as int,
    );
}

/// The creator's claim moves exactly the locked tokens out of the vault,
/// keeping the vault invariant.
pub proof fn law_creator_claim_keeps_vault(
    ctx: ClaimCreatorLock,
    clock: Clock,
    vault: int,
    locks: Seq<BuyerLock>,
)
    requires
        claim_creator_lock_rejection(ctx, clock) is None,
        vault_holds(vault, ctx.launch_state, locks),
    ensures
        vault_holds(
            vault - ctx.launch_state.creator_locked_tokens,
            LaunchState { creator_lock_claimed: true, ..ctx.launch_state },
            locks,
        ),
{
}

/// The SOL vault moves with the real SOL reserve: a buy adds the net amount
/// to both, a sell pays the seller and both fees out of both (never more
/// than the reserve), so their difference is kept.
pub proof fn law_sol_vault_tracks_reserve(
    buy: Buy,
    clock: Clock,
    amount_in: u64,
    min_tokens_out: u64,
    sell: Sell,
    tokens_in: u64,
    min_sol_out: u64,
    sol_vault: int,
)
    ensures
        buy_rejection(buy, clock, amount_in, min_tokens_out) is None ==> (sol_vault + buy_net_sol(
            buy,
            amount_in,
        )) - launch_after_buy(buy, clock, amount_in).real_sol_reserves == sol_vault
            - buy.launch_state.real_sol_reserves,
        sell_rejection(sell, tokens_in, min_sol_out) is None ==> {
            let paid = sell_net_sol(sell, tokens_in) + sell_platform_fee(sell, tokens_in)
                + sell_creator_fee(sell, tokens_in);
            &&& paid <= sell.launch_state.real_sol_reserves
            &&& (sol_vault - paid) - launch_after_sell(sell, tokens_in).real_sol_reserves
                == sol_vault - sell.launch_state.real_sol_reserves
        },
{
    if sell_rejection(sell, tokens_in, min_sol_out) is None {
        lemma_curve_quotient_bounded(
            sell.launch_state.virtual_token_reserves as int,
            sell.launch_state.virtual_sol_reserves as int,
            tokens_in as int,
        );
    }
}

/// Selling back what a buy just got returns what the buy put into the
/// curve, or one lamport more: with virtual reserves `(x, y)`, `0 < n` and
/// `x + n <= y`, buying with `n` gives `out` (not capped by the real
/// reserve); on the curve after it (`x + n`, `y - out`), selling `out` pays
/// `n` or `n + 1` when the real SOL reserve holds at least `n + 1`.
pub proof fn law_round_trip(x: int, y: int, n: int, token_cap: int, sol_cap: int)
    requires
        0 < x,
        0 < n,
        x + n <= y,
        curve_out(x, y, n, token_cap) < token_cap,
        n + 1 <= sol_cap,
    ensures
        n <= curve_out(
            y - curve_out(x, y, n, token_cap),
            x + n,
            curve_out(x, y, n, token_cap),
            sol_cap,
        ) <= n + 1,
{
    let d = x + n;
    let q = (x * y) / d;
    let r = (x * y) % d;
    lemma_fundamental_div_mod(x * y, d);
    assert(0 <= r < d);
    assert(curve_out(x, y, n, token_cap) == y - q);
    lemma_mul_is_commutative(q, d);
    // (x - 1) * y <= q * d <= x * y
    assert(q * d <= x * y);
    assert((x - 1) * y <= q * d) by (nonlinear_arith)
        requires
            x * y == d * q + r,
            r < d,
            d <= y,
            q * d == d * q,
    ;
    lemma_div_is_ordered((x - 1) * y, q * d, y);
    lemma_div_is_ordered(q * d, x * y, y);
    lemma_div_by_multiple(x - 1, y);
    lemma_div_by_multiple(x, y);
    assert(y - (y - q) == q);
    assert(q * d == d * q);
    assert((q * d) / y == (q * (x + n)) / (q + (y - q)));
}

} // verus!
