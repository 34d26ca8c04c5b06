//! `flag_same_funder`: anyone may flag two wallets of one launch that were
//! funded by the same account. Flagged wallets get penalty locks on every
//! later buy.
use vstd::prelude::*;
use crate::errors::VaultpadError;
use crate::pubkey::{spec_default_key, Pubkey};
use crate::state::{LaunchState, WalletTracker};

verus! {

/// The accounts of a flagging, as the values the instruction reads and writes.
#[derive(Debug, PartialEq, Eq)]
pub struct FlagSameFunder {
    pub launch_state: LaunchState,
    pub tracker_a: WalletTracker,
    pub tracker_b: WalletTracker,
}

/// Every reason a flagging is refused, in the order the checks are made.
pub open spec fn flag_same_funder_rejection(ctx: FlagSameFunder) -> Option<VaultpadError> {
    let a = ctx.tracker_a;
    let b = ctx.tracker_b;
    if a.mint@ != ctx.launch_state.mint@ {
        Some(VaultpadError::ConstraintViolated)
    } else if b.mint@ != ctx.launch_state.mint@ {
        Some(VaultpadError::ConstraintViolated)
    } else if a.wallet@ == b.wallet@ {
        Some(VaultpadError::InvalidAmount)
    } else if !(a.funder@ == b.funder@ && a.funder@ != spec_default_key()) {
        Some(VaultpadError::Unauthorized)
    } else {
        None
    }
}

/// Flags both wallets when they are two different wallets of this launch
/// with the same (recorded, non-zero) funder.
pub fn handler(ctx: &mut FlagSameFunder) -> (r: Result<(), VaultpadError>)
    ensures
        r is Err <==> flag_same_funder_rejection(*old(ctx)) is Some,
        r is Err ==> r->Err_0 == flag_same_funder_rejection(*old(ctx))->Some_0,
        r is Err ==> *final(ctx) == *old(ctx),
        r is Ok ==> *final(ctx) == (FlagSameFunder {
            tracker_a: WalletTracker { flagged: true, ..old(ctx).tracker_a },
            tracker_b: WalletTracker { flagged: true, ..old(ctx).tracker_b },
            ..*old(ctx)
        }),
{
    // ─── Account constraints ────────────────────────────────
    if !ctx.tracker_a.mint.same_as(&ctx.launch_state.mint) {
        return Err(VaultpadError::ConstraintViolated);
    }
    if !ctx.tracker_b.mint.same_as(&ctx.launch_state.mint) {
        return Err(VaultpadError::ConstraintViolated);
    }
    // Must be different wallets
    if ctx.tracker_a.wallet.same_as(&ctx.tracker_b.wallet) {
        return Err(VaultpadError::InvalidAmount);
    }
    // Must share the same funder
    let zero = Pubkey::zeroed();
    if !(ctx.tracker_a.funder.same_as(&ctx.tracker_b.funder) && !ctx.tracker_a.funder.same_as(
        &zero,
    )) {
        return Err(VaultpadError::Unauthorized);
    }
    ctx.tracker_a.flagged = true;
    ctx.tracker_b.flagged = true;
    Ok(())
}

} // verus!
