//! `claim_buyer_lock`: the tokens of an expired lock go to the buyer.
use vstd::prelude::*;
use crate::errors::VaultpadError;
use crate::pubkey::Pubkey;
use crate::state::{BuyerLock, Clock, LaunchState, WalletTracker};

verus! {

/// The accounts of a lock claim, as the values the instruction reads and writes.
#[derive(Debug, PartialEq, Eq)]
pub struct ClaimBuyerLock {
    pub launch_state: LaunchState,
    pub buyer_lock: BuyerLock,
    /// The buyer's tracker for this launch.
    pub wallet_tracker: WalletTracker,
    /// The signer.
    pub buyer: Pubkey,
}

/// Every reason a claim is refused, in the order the checks are made.
pub open spec fn claim_buyer_lock_rejection(ctx: ClaimBuyerLock, clock: Clock) -> Option<
    VaultpadError,
> {
    let lock = ctx.buyer_lock;
    if lock.buyer@ != ctx.buyer@ {
        Some(VaultpadError::Unauthorized)
    } else if lock.mint@ != ctx.launch_state.mint@ {
        Some(VaultpadError::Unauthorized)
    } else if lock.claimed {
        Some(VaultpadError::AlreadyClaimed)
    } else if clock.unix_timestamp < lock.unlock_time {
        Some(VaultpadError::LockNotExpired)
    } else if lock.amount == 0 {
        Some(VaultpadError::LockEmpty)
    } else if ctx.wallet_tracker.claimed_balance + lock.amount > u64::MAX {
        Some(VaultpadError::MathOverflow)
    } else {
        None
    }
}

/// Claims the tokens of a buyer lock once its unlock time has passed. On
/// success the result is the amount to move from the vault to the buyer.
pub fn handler(ctx: &mut ClaimBuyerLock, clock: Clock) -> (r: Result<u64, VaultpadError>)
    ensures
        r is Err <==> claim_buyer_lock_rejection(*old(ctx), clock) is Some,
        r is Err ==> r->Err_0 == claim_buyer_lock_rejection(*old(ctx), clock)->Some_0,
        r is Err ==> *final(ctx) == *old(ctx),
        r is Ok ==> r->Ok_0 == old(ctx).buyer_lock.amount,
        r is Ok ==> *final(ctx) == (ClaimBuyerLock {
            buyer_lock: BuyerLock { claimed: true, ..old(ctx).buyer_lock },
            wallet_tracker: WalletTracker {
                locked_balance: old(ctx).wallet_tracker.locked_balance.saturating_sub(
                    old(ctx).buyer_lock.amount,
                ),
                claimed_balance: (old(ctx).wallet_tracker.claimed_balance
                    + old(ctx).buyer_lock.amount) as u64,
                ..old(ctx).wallet_tracker
            },
            ..*old(ctx)
        }),
{
    // ─── Account constraints ────────────────────────────────
    if !ctx.buyer_lock.buyer.same_as(&ctx.buyer) {
        return Err(VaultpadError::Unauthorized);
    }
    if !ctx.buyer_lock.mint.same_as(&ctx.launch_state.mint) {
        return Err(VaultpadError::Unauthorized);
    }
    if ctx.buyer_lock.claimed {
        return Err(VaultpadError::AlreadyClaimed);
    }
    // ─── Lock expiry ────────────────────────────────────────
    if clock.unix_timestamp < ctx.buyer_lock.unlock_time {
        return Err(VaultpadError::LockNotExpired);
    }
    if ctx.buyer_lock.amount == 0 {
        return Err(VaultpadError::LockEmpty);
    }
    let amount: u64 = ctx.buyer_lock.amount;
    let claimed_balance: u64 = match ctx.wallet_tracker.claimed_balance.checked_add(amount) {
        Some(v) => v,
        None => return Err(VaultpadError::MathOverflow),
    };
    ctx.buyer_lock.claimed = true;
    ctx.wallet_tracker.locked_balance = ctx.wallet_tracker.locked_balance.saturating_sub(amount);
    ctx.wallet_tracker.claimed_balance = claimed_balance;
    Ok(amount)
}

} // verus!
