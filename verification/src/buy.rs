//! `buy`: lamports in, tokens escrowed in a fresh buyer lock.
//!
//! All anti-manipulation rules are decided here: the creator may not buy,
//! no wallet may buy more than 4% of the supply, every buyer of a slot in
//! which two or more wallets buy gets a penalty lock (also those whose locks
//! were issued earlier in that slot), and every buy of a flagged wallet gets
//! a penalty lock.
use vstd::prelude::*;
use crate::constants::{
    BUYER_LOCK_MAX, BUYER_LOCK_MIN, CATEGORY_CAUSE, PENALTY_LOCK_MAX, PENALTY_LOCK_MIN,
    SAME_BLOCK_THRESHOLD,
};
use crate::errors::VaultpadError;
use crate::fees::{fee_of, spec_fee};
use crate::lock_timer::{duration_in_window, spec_duration, spec_timer_seed, timer_seed};
use crate::pubkey::Pubkey;
use crate::state::{
    curve_out, spec_max_wallet_tokens, BuyerLock, Clock, LaunchState, ProtocolConfig, WalletTracker,
};

verus! {

/// The accounts of a buy, as the values the instruction reads and writes.
#[derive(Debug, PartialEq, Eq)]
pub struct Buy {
    pub protocol_config: ProtocolConfig,
    pub launch_state: LaunchState,
    /// The buyer's tracker for this launch (all zero before its first buy).
    pub wallet_tracker: WalletTracker,
    /// The account that funded the buyer, as the client names it.
    pub funder_account: Pubkey,
    /// The platform wallet account passed in.
    pub platform_wallet: Pubkey,
    /// The creator wallet account passed in.
    pub creator_wallet: Pubkey,
    /// The signer.
    pub buyer: Pubkey,
    /// Bump of the wallet tracker address.
    pub wallet_tracker_bump: u8,
    /// Bump of the new buyer lock address.
    pub buyer_lock_bump: u8,
    /// The locks issued earlier in the current slot, in lock-id order. Read
    /// (and turned into penalty locks) only when this buy is the one that
    /// brings the slot to two wallets.
    pub slot_locks: Vec<BuyerLock>,
    /// The tracker of the wallet that bought first in the current slot, read
    /// (and flagged) in that same case.
    pub slot_first_tracker: Option<WalletTracker>,
}

/// What an accepted buy creates and what has to move.
#[derive(Debug, PartialEq, Eq)]
pub struct BuyReceipt {
    /// The new escrow lock (a fresh account).
    pub buyer_lock: BuyerLock,
    /// Lamports from the buyer to the launch's SOL vault.
    pub net_sol: u64,
    /// Lamports from the buyer to the platform wallet (moved only if non-zero).
    pub platform_fee: u64,
    /// Lamports from the buyer to the creator or charity wallet (moved only if non-zero).
    pub creator_fee: u64,
    /// Whether the creator fee goes to the charity wallet instead of the creator.
    pub creator_fee_to_charity: bool,
    /// Seconds until the new lock opens.
    pub lock_duration: i64,
}

pub open spec fn buy_platform_fee(ctx: Buy, amount_in: u64) -> u64 {
    spec_fee(amount_in, ctx.protocol_config.platform_fee_bps)
}

pub open spec fn buy_creator_fee(ctx: Buy, amount_in: u64) -> u64 {
    spec_fee(amount_in, ctx.protocol_config.creator_fee_bps)
}

/// What enters the curve: the amount paid less both fees.
pub open spec fn buy_net_sol(ctx: Buy, amount_in: u64) -> int {
    amount_in - buy_platform_fee(ctx, amount_in) - buy_creator_fee(ctx, amount_in)
}

/// The tokens the curve gives for the net amount.
pub open spec fn buy_tokens_out(ctx: Buy, amount_in: u64) -> int {
    curve_out(
        ctx.launch_state.virtual_sol_reserves as int,
        ctx.launch_state.virtual_token_reserves as int,
        buy_net_sol(ctx, amount_in),
        ctx.launch_state.real_token_reserves as int,
    )
}

/// This buy opens a new slot: no buy was recorded yet in `slot`.
pub open spec fn buy_starts_slot(ctx: Buy, slot: u64) -> bool {
    ctx.launch_state.last_buy_slot != slot || ctx.launch_state.buys_in_current_slot == 0
}

/// The buyer's wallet has not bought yet in the current slot. While the slot
/// has one wallet, the launch records it; beyond that the buyer's tracker
/// tells (its latest buy was in another slot, or it never bought).
pub open spec fn buyer_new_to_slot(ctx: Buy, slot: u64) -> bool {
    if ctx.launch_state.buys_in_current_slot == 1 {
        ctx.buyer@ != ctx.launch_state.slot_first_buyer@
    } else {
        ctx.wallet_tracker.buy_count == 0 || ctx.wallet_tracker.last_buy_slot != slot
    }
}

/// The number of unique wallets that bought in the slot, this buy included.
pub open spec fn buys_in_slot_after(ctx: Buy, slot: u64) -> u8 {
    let launch = ctx.launch_state;
    if buy_starts_slot(ctx, slot) {
        1
    } else if buyer_new_to_slot(ctx, slot) {
        launch.buys_in_current_slot.saturating_add(1)
    } else {
        launch.buys_in_current_slot
    }
}

/// Two or more wallets buy in the slot of this buy.
pub open spec fn buy_is_same_block(ctx: Buy, slot: u64) -> bool {
    !buy_starts_slot(ctx, slot) && buys_in_slot_after(ctx, slot) >= SAME_BLOCK_THRESHOLD
}

/// This buy is the one that brings its slot to the same-block threshold: the
/// locks issued earlier in the slot become penalty locks too.
pub open spec fn buy_penalizes_slot(ctx: Buy, slot: u64) -> bool {
    buy_is_same_block(ctx, slot) && ctx.launch_state.buys_in_current_slot < SAME_BLOCK_THRESHOLD
}

/// The buyer's wallet was flagged as same-funder. A flag is permanent: no
/// buy clears it, not even a wallet's first buy (a tracker is only flagged
/// once it has a funder, which its first buy records).
pub open spec fn buy_is_same_funder(tracker: WalletTracker) -> bool {
    tracker.flagged
}

pub open spec fn buy_is_penalty(ctx: Buy, clock: Clock) -> bool {
    buy_is_same_block(ctx, clock.slot) || buy_is_same_funder(ctx.wallet_tracker)
}

/// The lock duration: 0-72h for a penalty lock, 5-30 min otherwise.
pub open spec fn buy_lock_duration(ctx: Buy, clock: Clock) -> int {
    let seed = spec_timer_seed(clock, ctx.buyer@, ctx.launch_state.total_locks_created);
    if buy_is_penalty(ctx, clock) {
        spec_duration(seed, PENALTY_LOCK_MIN, PENALTY_LOCK_MAX)
    } else {
        spec_duration(seed, BUYER_LOCK_MIN, BUYER_LOCK_MAX)
    }
}

/// The penalty duration of a lock issued earlier in `slot`: the one its own
/// buy would have drawn as a penalty buy.
pub open spec fn penalty_duration_of(lock: BuyerLock, slot: u64) -> int {
    spec_duration(
        spec_timer_seed(Clock { slot, unix_timestamp: lock.created_at }, lock.buyer@, lock.lock_id),
        PENALTY_LOCK_MIN,
        PENALTY_LOCK_MAX,
    )
}

/// A lock issued earlier in the slot, turned into a penalty lock.
pub open spec fn repenalized(lock: BuyerLock, slot: u64) -> BuyerLock {
    BuyerLock {
        is_penalty: true,
        unlock_time: (lock.created_at + penalty_duration_of(lock, slot)) as i64,
        ..lock
    }
}

/// The slot accounts passed in are the locks issued earlier in the slot, all
/// of the slot's first wallet, whose tracker is passed too.
pub open spec fn slot_accounts_match(ctx: Buy) -> bool {
    let launch = ctx.launch_state;
    let locks = ctx.slot_locks@;
    &&& ctx.slot_first_tracker is Some
    &&& ctx.slot_first_tracker->Some_0.mint@ == launch.mint@
    &&& ctx.slot_first_tracker->Some_0.wallet@ == launch.slot_first_buyer@
    &&& ctx.slot_first_tracker->Some_0.wallet@ != ctx.buyer@
    &&& locks.len() == launch.total_locks_created - launch.slot_first_lock_id
    &&& forall|i: int|
        0 <= i < locks.len() ==> {
            &&& (#[trigger] locks[i]).lock_id == launch.slot_first_lock_id + i
            &&& locks[i].mint@ == launch.mint@
            &&& locks[i].buyer@ == ctx.slot_first_tracker->Some_0.wallet@
        }
}

/// The checks made before the lock timers are drawn, in order.
pub open spec fn buy_early_rejection(ctx: Buy, clock: Clock, amount_in: u64, min_tokens_out: u64) -> Option<
    VaultpadError,
> {
    let launch = ctx.launch_state;
    let fees = buy_platform_fee(ctx, amount_in) + buy_creator_fee(ctx, amount_in);
    let tokens = buy_tokens_out(ctx, amount_in);
    if launch.graduated {
        Some(VaultpadError::AlreadyGraduated)
    } else if ctx.platform_wallet@ != ctx.protocol_config.platform_wallet@ {
        Some(VaultpadError::ConstraintViolated)
    } else if ctx.creator_wallet@ != launch.creator@ {
        Some(VaultpadError::ConstraintViolated)
    } else if ctx.buyer@ == launch.creator@ {
        Some(VaultpadError::CreatorCannotBuy)
    } else if amount_in == 0 {
        Some(VaultpadError::InvalidAmount)
    } else if fees > amount_in {
        Some(VaultpadError::MathOverflow)
    } else if launch.virtual_sol_reserves == 0 && buy_net_sol(ctx, amount_in) == 0 {
        Some(VaultpadError::MathOverflow)
    } else if tokens < min_tokens_out {
        Some(VaultpadError::SlippageExceeded)
    } else if tokens == 0 {
        Some(VaultpadError::CurveDepleted)
    } else if ctx.wallet_tracker.total_purchased + tokens > u64::MAX {
        Some(VaultpadError::MathOverflow)
    } else if ctx.wallet_tracker.total_purchased + tokens > spec_max_wallet_tokens(
        launch.total_supply as int,
    ) {
        Some(VaultpadError::MaxWalletExceeded)
    } else if buy_penalizes_slot(ctx, clock.slot) && !slot_accounts_match(ctx) {
        Some(VaultpadError::ConstraintViolated)
    } else {
        None
    }
}

/// Every reason a buy is refused, in the order the checks are made.
pub open spec fn buy_rejection(ctx: Buy, clock: Clock, amount_in: u64, min_tokens_out: u64) -> Option<
    VaultpadError,
> {
    let launch = ctx.launch_state;
    let net = buy_net_sol(ctx, amount_in);
    let tokens = buy_tokens_out(ctx, amount_in);
    if buy_early_rejection(ctx, clock, amount_in, min_tokens_out) is Some {
        buy_early_rejection(ctx, clock, amount_in, min_tokens_out)
    } else if ctx.wallet_tracker.locked_balance + tokens > u64::MAX {
        Some(VaultpadError::MathOverflow)
    } else if launch.virtual_sol_reserves + net > u64::MAX {
        Some(VaultpadError::MathOverflow)
    } else if launch.real_sol_reserves + net > u64::MAX {
        Some(VaultpadError::MathOverflow)
    } else {
        None
    }
}

/// The unlock times of the new lock and of the relocked slot locks fit an `i64`.
pub open spec fn buy_unlocks_fit(ctx: Buy, clock: Clock) -> bool {
    &&& clock.unix_timestamp + buy_lock_duration(ctx, clock) <= i64::MAX
    &&& buy_penalizes_slot(ctx, clock.slot) ==> forall|i: int|
        0 <= i < ctx.slot_locks@.len() ==> (#[trigger] ctx.slot_locks@[i]).created_at
            + penalty_duration_of(ctx.slot_locks@[i], clock.slot) <= i64::MAX
}

/// The statistics counters of an accepted buy do not overflow (they are
/// checked and abort the transaction when they would).
pub open spec fn buy_stats_fit(ctx: Buy, amount_in: u64) -> bool {
    let fees = buy_platform_fee(ctx, amount_in) + buy_creator_fee(ctx, amount_in);
    &&& ctx.launch_state.volume + amount_in <= u64::MAX
    &&& ctx.launch_state.fees_generated + fees <= u64::MAX
    &&& ctx.launch_state.trade_count < u64::MAX
    &&& ctx.launch_state.total_locks_created < u64::MAX
    &&& ctx.protocol_config.total_volume + amount_in <= u64::MAX
    &&& ctx.protocol_config.total_fees_collected + fees <= u64::MAX
}

/// The buy aborts the transaction: an unlock time or a counter overflows.
pub open spec fn buy_aborts(ctx: Buy, clock: Clock, amount_in: u64, min_tokens_out: u64) -> bool {
    ||| buy_early_rejection(ctx, clock, amount_in, min_tokens_out) is None && !buy_unlocks_fit(
        ctx,
        clock,
    )
    ||| buy_rejection(ctx, clock, amount_in, min_tokens_out) is None && !buy_stats_fit(
        ctx,
        amount_in,
    )
}

/// The number of penalty locks this buy issues: its own, and the relocked
/// slot locks.
pub open spec fn buy_new_penalties(ctx: Buy, clock: Clock) -> u64 {
    let own: u64 = if buy_is_penalty(ctx, clock) {
        1
    } else {
        0
    };
    let relocked: u64 = if buy_penalizes_slot(ctx, clock.slot) {
        ctx.slot_locks@.len() as u64
    } else {
        0
    };
    own.saturating_add(relocked)
}

pub open spec fn launch_after_buy(ctx: Buy, clock: Clock, amount_in: u64) -> LaunchState {
    let launch = ctx.launch_state;
    let net = buy_net_sol(ctx, amount_in);
    let tokens = buy_tokens_out(ctx, amount_in);
    let fees = buy_platform_fee(ctx, amount_in) + buy_creator_fee(ctx, amount_in);
    LaunchState {
        last_buy_slot: clock.slot,
        buys_in_current_slot: buys_in_slot_after(ctx, clock.slot),
        slot_first_lock_id: if buy_starts_slot(ctx, clock.slot) {
            launch.total_locks_created
        } else {
            launch.slot_first_lock_id
        },
        slot_first_buyer: if buy_starts_slot(ctx, clock.slot) {
            ctx.buyer
        } else {
            launch.slot_first_buyer
        },
        penalty_locks_issued: launch.penalty_locks_issued.saturating_add(
            buy_new_penalties(ctx, clock),
        ),
        virtual_sol_reserves: (launch.virtual_sol_reserves + net) as u64,
        virtual_token_reserves: (launch.virtual_token_reserves - tokens) as u64,
        real_sol_reserves: (launch.real_sol_reserves + net) as u64,
        real_token_reserves: (launch.real_token_reserves - tokens) as u64,
        volume: (launch.volume + amount_in) as u64,
        fees_generated: (launch.fees_generated + fees) as u64,
        trade_count: (launch.trade_count + 1) as u64,
        total_locks_created: (launch.total_locks_created + 1) as u64,
        ..launch
    }
}

pub open spec fn tracker_after_buy(ctx: Buy, clock: Clock, amount_in: u64) -> WalletTracker {
    let t = ctx.wallet_tracker;
    let first = t.buy_count == 0;
    let tokens = buy_tokens_out(ctx, amount_in);
    WalletTracker {
        mint: if first {
            ctx.launch_state.mint
        } else {
            t.mint
        },
        wallet: if first {
            ctx.buyer
        } else {
            t.wallet
        },
        funder: if first {
            ctx.funder_account
        } else {
            t.funder
        },
        bump: if first {
            ctx.wallet_tracker_bump
        } else {
            t.bump
        },
        flagged: t.flagged || buy_is_penalty(ctx, clock),
        total_purchased: (t.total_purchased + tokens) as u64,
        locked_balance: (t.locked_balance + tokens) as u64,
        buy_count: t.buy_count.saturating_add(1),
        last_buy_slot: clock.slot,
        ..t
    }
}

pub open spec fn config_after_buy(ctx: Buy, amount_in: u64) -> ProtocolConfig {
    let c = ctx.protocol_config;
    let fees = buy_platform_fee(ctx, amount_in) + buy_creator_fee(ctx, amount_in);
    ProtocolConfig {
        total_volume: (c.total_volume + amount_in) as u64,
        total_fees_collected: (c.total_fees_collected + fees) as u64,
        ..c
    }
}

/// The slot locks after the buy: relocked when this buy penalizes the slot.
pub open spec fn slot_locks_after_buy(ctx: Buy, clock: Clock) -> Seq<BuyerLock> {
    if buy_penalizes_slot(ctx, clock.slot) {
        ctx.slot_locks@.map_values(|l: BuyerLock| repenalized(l, clock.slot))
    } else {
        ctx.slot_locks@
    }
}

/// The slot's first tracker after the buy: flagged when this buy penalizes the slot.
pub open spec fn slot_first_tracker_after_buy(ctx: Buy, clock: Clock) -> Option<WalletTracker> {
    if buy_penalizes_slot(ctx, clock.slot) {
        Some(WalletTracker { flagged: true, ..ctx.slot_first_tracker->Some_0 })
    } else {
        ctx.slot_first_tracker
    }
}

pub open spec fn lock_of_buy(ctx: Buy, clock: Clock, amount_in: u64) -> BuyerLock {
    BuyerLock {
        mint: ctx.launch_state.mint,
        buyer: ctx.buyer,
        lock_id: ctx.launch_state.total_locks_created,
        amount: buy_tokens_out(ctx, amount_in) as u64,
        unlock_time: (clock.unix_timestamp + buy_lock_duration(ctx, clock)) as i64,
        claimed: false,
        created_at: clock.unix_timestamp,
        is_penalty: buy_is_penalty(ctx, clock),
        bump: ctx.buyer_lock_bump,
    }
}

/// The outcome of a buy that does not abort: refused with nothing changed,
/// or accepted with exactly this new state and receipt.
pub open spec fn buy_outcome(
    pre: Buy,
    post: Buy,
    clock: Clock,
    amount_in: u64,
    min_tokens_out: u64,
    r: Result<BuyReceipt, VaultpadError>,
) -> bool {
    &&& r is Err <==> buy_rejection(pre, clock, amount_in, min_tokens_out) is Some
    &&& r is Err ==> r->Err_0 == buy_rejection(pre, clock, amount_in, min_tokens_out)->Some_0
        && post == pre
    &&& r is Ok ==> {
        &&& buy_unlocks_fit(pre, clock)
        &&& buy_stats_fit(pre, amount_in)
        &&& post.launch_state == launch_after_buy(pre, clock, amount_in)
        &&& post.wallet_tracker == tracker_after_buy(pre, clock, amount_in)
        &&& post.protocol_config == config_after_buy(pre, amount_in)
        &&& post.slot_locks@ == slot_locks_after_buy(pre, clock)
        &&& post.slot_first_tracker == slot_first_tracker_after_buy(pre, clock)
        &&& post.funder_account == pre.funder_account
        &&& post.platform_wallet == pre.platform_wallet
        &&& post.creator_wallet == pre.creator_wallet
        &&& post.buyer == pre.buyer
        &&& post.wallet_tracker_bump == pre.wallet_tracker_bump
        &&& post.buyer_lock_bump == pre.buyer_lock_bump
        &&& r->Ok_0.buyer_lock == lock_of_buy(pre, clock, amount_in)
        &&& r->Ok_0.net_sol == buy_net_sol(pre, amount_in)
        &&& r->Ok_0.platform_fee == buy_platform_fee(pre, amount_in)
        &&& r->Ok_0.creator_fee == buy_creator_fee(pre, amount_in)
        &&& r->Ok_0.creator_fee_to_charity == (pre.launch_state.category == CATEGORY_CAUSE)
        &&& r->Ok_0.lock_duration == buy_lock_duration(pre, clock)
    }
}

/// Whether the slot accounts passed in match the slot (see `slot_accounts_match`).
fn check_slot_accounts(ctx: &Buy) -> (r: bool)
    ensures
        r == slot_accounts_match(*ctx),
{
    let t = match &ctx.slot_first_tracker {
        Some(t) => t,
        None => return false,
    };
    if !t.mint.same_as(&ctx.launch_state.mint) || !t.wallet.same_as(&ctx.launch_state.slot_first_buyer)
        || t.wallet.same_as(&ctx.buyer) {
        return false;
    }
    let first: u64 = ctx.launch_state.slot_first_lock_id;
    let total: u64 = ctx.launch_state.total_locks_created;
    if first > total {
        return false;
    }
    let n: usize = ctx.slot_locks.len();
    if n as u64 != total - first {
        return false;
    }
    let mut i: usize = 0;
    while i < n
        invariant
            n == ctx.slot_locks@.len(),
            n == total - first,
            first == ctx.launch_state.slot_first_lock_id,
            ctx.slot_first_tracker == Some(*t),
            i <= n,
            forall|j: int|
                0 <= j < i ==> {
                    &&& (#[trigger] ctx.slot_locks@[j]).lock_id == first + j
                    &&& ctx.slot_locks@[j].mint@ == ctx.launch_state.mint@
                    &&& ctx.slot_locks@[j].buyer@ == t.wallet@
                },
        decreases n - i,
    {
        let lock = &ctx.slot_locks[i];
        if lock.lock_id != first + i as u64 || !lock.mint.same_as(&ctx.launch_state.mint)
            || !lock.buyer.same_as(&t.wallet) {
            return false;
        }
        i = i + 1;
    }
    true
}

/// The slot locks relocked as penalty locks, or `None` when an unlock time
/// would overflow.
fn relock_slot(locks: &Vec<BuyerLock>, slot: u64) -> (r: Option<Vec<BuyerLock>>)
    ensures
        r is None <==> exists|i: int|
            0 <= i < locks@.len() && (#[trigger] locks@[i]).created_at + penalty_duration_of(
                locks@[i],
                slot,
            ) > i64::MAX,
        r is Some ==> r->Some_0@ == locks@.map_values(|l: BuyerLock| repenalized(l, slot)),
{
    let mut out: Vec<BuyerLock> = Vec::new();
    let mut i: usize = 0;
    while i < locks.len()
        invariant
            i <= locks@.len(),
            out@.len() == i,
            forall|j: int| 0 <= j < i ==> #[trigger] out@[j] == repenalized(locks@[j], slot),
            forall|j: int|
                0 <= j < i ==> (#[trigger] locks@[j]).created_at + penalty_duration_of(
                    locks@[j],
                    slot,
                ) <= i64::MAX,
        decreases locks@.len() - i,
    {
        let lock = locks[i];
        let stamp = Clock { slot, unix_timestamp: lock.created_at };
        let seed: u64 = timer_seed(stamp, &lock.buyer, lock.lock_id);
        let duration: i64 = duration_in_window(seed, PENALTY_LOCK_MIN, PENALTY_LOCK_MAX);
        let unlock_time: i64 = match lock.created_at.checked_add(duration) {
            Some(t) => t,
            None => return None,
        };
        out.push(BuyerLock { is_penalty: true, unlock_time, ..lock });
        i = i + 1;
    }
    assert(out@ =~= locks@.map_values(|l: BuyerLock| repenalized(l, slot)));
    Some(out)
}

/// Buys tokens with `amount_in` lamports, or reports (`None`, nothing
/// changed) that the transaction aborts because an unlock time or a counter
/// overflows.
pub fn try_handler(ctx: &mut Buy, clock: Clock, amount_in: u64, min_tokens_out: u64) -> (r: Option<
    Result<BuyReceipt, VaultpadError>,
>)
    ensures
        r is None <==> buy_aborts(*old(ctx), clock, amount_in, min_tokens_out),
        r is None ==> *final(ctx) == *old(ctx),
        r is Some ==> buy_outcome(*old(ctx), *final(ctx), clock, amount_in, min_tokens_out, r->Some_0),
{
    // ─── Account constraints ────────────────────────────────
    if ctx.launch_state.graduated {
        return Some(Err(VaultpadError::AlreadyGraduated));
    }
    if !ctx.platform_wallet.same_as(&ctx.protocol_config.platform_wallet) {
        return Some(Err(VaultpadError::ConstraintViolated));
    }
    if !ctx.creator_wallet.same_as(&ctx.launch_state.creator) {
        return Some(Err(VaultpadError::ConstraintViolated));
    }
    // ─── Same-block detection: unique wallets in this slot ──
    let current_slot: u64 = clock.slot;
    let starts_slot = ctx.launch_state.last_buy_slot != current_slot
        || ctx.launch_state.buys_in_current_slot == 0;
    let new_to_slot = if ctx.launch_state.buys_in_current_slot == 1 {
        !ctx.buyer.same_as(&ctx.launch_state.slot_first_buyer)
    } else {
        ctx.wallet_tracker.buy_count == 0 || ctx.wallet_tracker.last_buy_slot != current_slot
    };
    let buys_in_slot: u8 = if starts_slot {
        1
    } else if new_to_slot {
        ctx.launch_state.buys_in_current_slot.saturating_add(1)
    } else {
        ctx.launch_state.buys_in_current_slot
    };
    let is_same_block = !starts_slot && buys_in_slot >= SAME_BLOCK_THRESHOLD;
    let penalizes_slot = is_same_block && ctx.launch_state.buys_in_current_slot
        < SAME_BLOCK_THRESHOLD;
    // ─── Check 1: the creator cannot buy their own token ────
    if ctx.buyer.same_as(&ctx.launch_state.creator) {
        return Some(Err(VaultpadError::CreatorCannotBuy));
    }
    if amount_in == 0 {
        return Some(Err(VaultpadError::InvalidAmount));
    }
    // ─── Fees ───────────────────────────────────────────────
    let platform_fee: u64 = fee_of(amount_in, ctx.protocol_config.platform_fee_bps);
    let creator_fee: u64 = fee_of(amount_in, ctx.protocol_config.creator_fee_bps);
    let after_platform: u64 = match amount_in.checked_sub(platform_fee) {
        Some(v) => v,
        None => return Some(Err(VaultpadError::MathOverflow)),
    };
    let net_sol: u64 = match after_platform.checked_sub(creator_fee) {
        Some(v) => v,
        None => return Some(Err(VaultpadError::MathOverflow)),
    };
    // ─── Bonding curve ──────────────────────────────────────
    let tokens_out: u64 = match ctx.launch_state.calculate_buy(net_sol) {
        Ok(t) => t,
        Err(e) => return Some(Err(e)),
    };
    if tokens_out < min_tokens_out {
        return Some(Err(VaultpadError::SlippageExceeded));
    }
    if tokens_out == 0 {
        return Some(Err(VaultpadError::CurveDepleted));
    }
    // ─── Check 2: max wallet cap ────────────────────────────
    let max_tokens: u64 = ctx.launch_state.max_wallet_tokens();
    let new_total: u64 = match ctx.wallet_tracker.total_purchased.checked_add(tokens_out) {
        Some(v) => v,
        None => return Some(Err(VaultpadError::MathOverflow)),
    };
    if new_total > max_tokens {
        return Some(Err(VaultpadError::MaxWalletExceeded));
    }
    // ─── The earlier locks of the slot, when this buy penalizes them ──
    if penalizes_slot && !check_slot_accounts(ctx) {
        return Some(Err(VaultpadError::ConstraintViolated));
    }
    // ─── Check 3: same-funder (flagged wallets) ─────────────
    let is_same_funder = ctx.wallet_tracker.flagged;
    // ─── Lock duration ──────────────────────────────────────
    let is_penalty = is_same_block || is_same_funder;
    let lock_id: u64 = ctx.launch_state.total_locks_created;
    let seed: u64 = timer_seed(clock, &ctx.buyer, lock_id);
    let lock_duration: i64 = if is_penalty {
        duration_in_window(seed, PENALTY_LOCK_MIN, PENALTY_LOCK_MAX)
    } else {
        duration_in_window(seed, BUYER_LOCK_MIN, BUYER_LOCK_MAX)
    };
    let unlock_time: i64 = match clock.unix_timestamp.checked_add(lock_duration) {
        Some(t) => t,
        None => return None,
    };
    let relocked: Option<Vec<BuyerLock>> = if penalizes_slot {
        match relock_slot(&ctx.slot_locks, current_slot) {
            Some(v) => Some(v),
            None => return None,
        }
    } else {
        None
    };
    // ─── Balances and curve ─────────────────────────────────
    let locked_balance: u64 = match ctx.wallet_tracker.locked_balance.checked_add(tokens_out) {
        Some(v) => v,
        None => return Some(Err(VaultpadError::MathOverflow)),
    };
    let virtual_sol: u64 = match ctx.launch_state.virtual_sol_reserves.checked_add(net_sol) {
        Some(v) => v,
        None => return Some(Err(VaultpadError::MathOverflow)),
    };
    let virtual_tokens: u64 = match ctx.launch_state.virtual_token_reserves.checked_sub(
        tokens_out,
    ) {
        Some(v) => v,
        None => return Some(Err(VaultpadError::MathOverflow)),
    };
    let real_sol: u64 = match ctx.launch_state.real_sol_reserves.checked_add(net_sol) {
        Some(v) => v,
        None => return Some(Err(VaultpadError::MathOverflow)),
    };
    let real_tokens: u64 = match ctx.launch_state.real_token_reserves.checked_sub(tokens_out) {
        Some(v) => v,
        None => return Some(Err(VaultpadError::MathOverflow)),
    };
    // ─── Statistics ─────────────────────────────────────────
    let total_fee: u64 = platform_fee + creator_fee;
    let volume: u64 = match ctx.launch_state.volume.checked_add(amount_in) {
        Some(v) => v,
        None => return None,
    };
    let fees_generated: u64 = match ctx.launch_state.fees_generated.checked_add(total_fee) {
        Some(v) => v,
        None => return None,
    };
    let trade_count: u64 = match ctx.launch_state.trade_count.checked_add(1) {
        Some(v) => v,
        None => return None,
    };
    let total_locks: u64 = match lock_id.checked_add(1) {
        Some(v) => v,
        None => return None,
    };
    let total_volume: u64 = match ctx.protocol_config.total_volume.checked_add(amount_in) {
        Some(v) => v,
        None => return None,
    };
    let total_fees: u64 = match ctx.protocol_config.total_fees_collected.checked_add(total_fee) {
        Some(v) => v,
        None => return None,
    };
    // ─── Accepted: write the new state ──────────────────────
    let own_penalty: u64 = if is_penalty {
        1
    } else {
        0
    };
    let relocked_count: u64 = if penalizes_slot {
        ctx.slot_locks.len() as u64
    } else {
        0
    };
    let new_penalties: u64 = own_penalty.saturating_add(relocked_count);
    if starts_slot {
        ctx.launch_state.slot_first_lock_id = lock_id;
        ctx.launch_state.slot_first_buyer = ctx.buyer;
    }
    ctx.launch_state.last_buy_slot = current_slot;
    ctx.launch_state.buys_in_current_slot = buys_in_slot;
    ctx.launch_state.penalty_locks_issued = ctx.launch_state.penalty_locks_issued.saturating_add(
        new_penalties,
    );
    if let Some(v) = relocked {
        ctx.slot_locks = v;
        let t = ctx.slot_first_tracker.unwrap();
        ctx.slot_first_tracker = Some(WalletTracker { flagged: true, ..t });
    }
    if ctx.wallet_tracker.buy_count == 0 {
        ctx.wallet_tracker.mint = ctx.launch_state.mint;
        ctx.wallet_tracker.wallet = ctx.buyer;
        ctx.wallet_tracker.funder = ctx.funder_account;
        ctx.wallet_tracker.bump = ctx.wallet_tracker_bump;
    }
    if is_penalty {
        ctx.wallet_tracker.flagged = true;
    }
    ctx.wallet_tracker.last_buy_slot = current_slot;
    let buyer_lock = BuyerLock {
        mint: ctx.launch_state.mint,
        buyer: ctx.buyer,
        lock_id,
        amount: tokens_out,
        unlock_time,
        claimed: false,
        created_at: clock.unix_timestamp,
        is_penalty,
        bump: ctx.buyer_lock_bump,
    };
    ctx.wallet_tracker.total_purchased = new_total;
    ctx.wallet_tracker.locked_balance = locked_balance;
    ctx.wallet_tracker.buy_count = ctx.wallet_tracker.buy_count.saturating_add(1);
    ctx.launch_state.virtual_sol_reserves = virtual_sol;
    ctx.launch_state.virtual_token_reserves = virtual_tokens;
    ctx.launch_state.real_sol_reserves = real_sol;
    ctx.launch_state.real_token_reserves = real_tokens;
    ctx.launch_state.volume = volume;
    ctx.launch_state.fees_generated = fees_generated;
    ctx.launch_state.trade_count = trade_count;
    ctx.launch_state.total_locks_created = total_locks;
    ctx.protocol_config.total_volume = total_volume;
    ctx.protocol_config.total_fees_collected = total_fees;
    Some(
        Ok(
            BuyReceipt {
                buyer_lock,
                net_sol,
                platform_fee,
                creator_fee,
                creator_fee_to_charity: ctx.launch_state.category == CATEGORY_CAUSE,
                lock_duration,
            },
        ),
    )
}

/// Buys tokens with `amount_in` lamports. Every buy is escrowed in a new
/// buyer lock with a randomized unlock time.
pub fn handler(ctx: &mut Buy, clock: Clock, amount_in: u64, min_tokens_out: u64) -> (r: Result<
    BuyReceipt,
    VaultpadError,
>)
    requires
        buy_early_rejection(*old(ctx), clock, amount_in, min_tokens_out) is None ==> buy_unlocks_fit(
            *old(ctx),
            clock,
        ),
        buy_rejection(*old(ctx), clock, amount_in, min_tokens_out) is None ==> buy_stats_fit(
            *old(ctx),
            amount_in,
        ),
    ensures
        buy_outcome(*old(ctx), *final(ctx), clock, amount_in, min_tokens_out, r),
{
    match try_handler(ctx, clock, amount_in, min_tokens_out) {
        Some(r) => r,
        None => vstd::pervasive::unreached(),
    }
}

} // verus!
