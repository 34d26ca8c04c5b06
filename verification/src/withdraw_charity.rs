//! `withdraw_charity`: the charity authority of a cause token moves lamports
//! out of the charity wallet, always leaving its rent-exempt minimum.
use vstd::prelude::*;
use crate::constants::CATEGORY_CAUSE;
use crate::errors::VaultpadError;
use crate::pubkey::Pubkey;
use crate::state::LaunchState;

verus! {

/// The accounts of a withdrawal, as the values the instruction reads.
#[derive(Debug, PartialEq, Eq)]
pub struct WithdrawCharity {
    pub launch_state: LaunchState,
    /// The signer.
    pub authority: Pubkey,
    /// Lamports in the charity wallet.
    pub charity_balance: u64,
    /// The rent-exempt minimum of the charity wallet.
    pub rent_exempt_minimum: u64,
}

/// Every reason a withdrawal is refused, in the order the checks are made.
pub open spec fn withdraw_charity_rejection(ctx: WithdrawCharity, amount: u64) -> Option<
    VaultpadError,
> {
    let launch = ctx.launch_state;
    if ctx.authority@ != launch.charity_authority@ {
        Some(VaultpadError::Unauthorized)
    } else if launch.category != CATEGORY_CAUSE {
        Some(VaultpadError::NotCauseToken)
    } else if amount + ctx.rent_exempt_minimum > ctx.charity_balance {
        Some(VaultpadError::InsufficientFunds)
    } else {
        None
    }
}

/// Decides a withdrawal of `amount` lamports; on success the result is the
/// amount to move from the charity wallet to the destination.
pub fn handler(ctx: &WithdrawCharity, amount: u64) -> (r: Result<u64, VaultpadError>)
    ensures
        r is Err <==> withdraw_charity_rejection(*ctx, amount) is Some,
        r is Err ==> r->Err_0 == withdraw_charity_rejection(*ctx, amount)->Some_0,
        r is Ok ==> r->Ok_0 == amount,
        r is Ok ==> ctx.charity_balance - r->Ok_0 >= ctx.rent_exempt_minimum,
{
    if !ctx.authority.same_as(&ctx.launch_state.charity_authority) {
        return Err(VaultpadError::Unauthorized);
    }
    if ctx.launch_state.category != CATEGORY_CAUSE {
        return Err(VaultpadError::NotCauseToken);
    }
    if ctx.charity_balance < ctx.rent_exempt_minimum
        || ctx.charity_balance - ctx.rent_exempt_minimum < amount {
        return Err(VaultpadError::InsufficientFunds);
    }
    Ok(amount)
}

} // verus!
