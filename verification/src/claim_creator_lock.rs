//! `claim_creator_lock`: the creator claims their locked 10% once the
//! randomized creator lock has expired.
use vstd::prelude::*;
use crate::errors::VaultpadError;
use crate::pubkey::Pubkey;
use crate::state::{Clock, LaunchState};

verus! {

/// The accounts of a creator claim, as the values the instruction reads and writes.
#[derive(Debug, PartialEq, Eq)]
pub struct ClaimCreatorLock {
    pub launch_state: LaunchState,
    /// The signer.
    pub creator: Pubkey,
}

/// Every reason a creator claim is refused, in the order the checks are made.
pub open spec fn claim_creator_lock_rejection(ctx: ClaimCreatorLock, clock: Clock) -> Option<
    VaultpadError,
> {
    let launch = ctx.launch_state;
    if ctx.creator@ != launch.creator@ {
        Some(VaultpadError::Unauthorized)
    } else if launch.creator_lock_claimed {
        Some(VaultpadError::AlreadyClaimed)
    } else if clock.unix_timestamp < launch.creator_lock_unlock_time {
        Some(VaultpadError::LockNotExpired)
    } else if launch.creator_locked_tokens == 0 {
        Some(VaultpadError::LockEmpty)
    } else {
        None
    }
}

/// Claims the creator's locked tokens. On success the result is the amount
/// to move from the vault to the creator.
pub fn handler(ctx: &mut ClaimCreatorLock, clock: Clock) -> (r: Result<u64, VaultpadError>)
    ensures
        r is Err <==> claim_creator_lock_rejection(*old(ctx), clock) is Some,
        r is Err ==> r->Err_0 == claim_creator_lock_rejection(*old(ctx), clock)->Some_0,
        r is Err ==> *final(ctx) == *old(ctx),
        r is Ok ==> r->Ok_0 == old(ctx).launch_state.creator_locked_tokens,
        r is Ok ==> *final(ctx) == (ClaimCreatorLock {
            launch_state: LaunchState { creator_lock_claimed: true, ..old(ctx).launch_state },
            ..*old(ctx)
        }),
{
    if !ctx.creator.same_as(&ctx.launch_state.creator) {
        return Err(VaultpadError::Unauthorized);
    }
    if ctx.launch_state.creator_lock_claimed {
        return Err(VaultpadError::AlreadyClaimed);
    }
    if clock.unix_timestamp < ctx.launch_state.creator_lock_unlock_time {
        return Err(VaultpadError::LockNotExpired);
    }
    if ctx.launch_state.creator_locked_tokens == 0 {
        return Err(VaultpadError::LockEmpty);
    }
    ctx.launch_state.creator_lock_claimed = true;
    Ok(ctx.launch_state.creator_locked_tokens)
}

} // verus!
