//! `update_protocol`: the authority changes settings of the global config.
use vstd::prelude::*;
use crate::constants::MAX_FEE_BPS;
use crate::errors::VaultpadError;
use crate::pubkey::Pubkey;
use crate::state::ProtocolConfig;

verus! {

/// The settings to change; `None` keeps the current value.
#[derive(Debug, PartialEq, Eq)]
pub struct UpdateProtocolParams {
    pub platform_wallet: Option<Pubkey>,
    pub platform_fee_bps: Option<u16>,
    pub creator_fee_bps: Option<u16>,
    pub launch_cost: Option<u64>,
}

/// The accounts of an update, as the values the instruction reads and writes.
#[derive(Debug, PartialEq, Eq)]
pub struct UpdateProtocol {
    pub protocol_config: ProtocolConfig,
    /// The signer.
    pub authority: Pubkey,
}

/// A new fee above the hard cap.
pub open spec fn fee_over_cap(fee: Option<u16>) -> bool {
    fee matches Some(bps) && bps > MAX_FEE_BPS
}

/// Every reason an update is refused, in the order the checks are made.
pub open spec fn update_protocol_rejection(ctx: UpdateProtocol, params: UpdateProtocolParams) -> Option<
    VaultpadError,
> {
    if ctx.authority@ != ctx.protocol_config.authority@ {
        Some(VaultpadError::Unauthorized)
    } else if fee_over_cap(params.platform_fee_bps) {
        Some(VaultpadError::FeeTooHigh)
    } else if fee_over_cap(params.creator_fee_bps) {
        Some(VaultpadError::FeeTooHigh)
    } else {
        None
    }
}

/// Applies the given settings; only the authority may.
pub fn handler(ctx: &mut UpdateProtocol, params: UpdateProtocolParams) -> (r: Result<
    (),
    VaultpadError,
>)
    ensures
        r is Err <==> update_protocol_rejection(*old(ctx), params) is Some,
        r is Err ==> r->Err_0 == update_protocol_rejection(*old(ctx), params)->Some_0,
        r is Err ==> *final(ctx) == *old(ctx),
        r is Ok ==> *final(ctx) == (UpdateProtocol {
            protocol_config: ProtocolConfig {
                platform_wallet: params.platform_wallet.unwrap_or(
                    old(ctx).protocol_config.platform_wallet,
                ),
                platform_fee_bps: params.platform_fee_bps.unwrap_or(
                    old(ctx).protocol_config.platform_fee_bps,
                ),
                creator_fee_bps: params.creator_fee_bps.unwrap_or(
                    old(ctx).protocol_config.creator_fee_bps,
                ),
                launch_cost: params.launch_cost.unwrap_or(old(ctx).protocol_config.launch_cost),
                ..old(ctx).protocol_config
            },
            ..*old(ctx)
        }),
{
    if !ctx.authority.same_as(&ctx.protocol_config.authority) {
        return Err(VaultpadError::Unauthorized);
    }
    if let Some(bps) = params.platform_fee_bps {
        if bps > MAX_FEE_BPS {
            return Err(VaultpadError::FeeTooHigh);
        }
    }
    if let Some(bps) = params.creator_fee_bps {
        if bps > MAX_FEE_BPS {
            return Err(VaultpadError::FeeTooHigh);
        }
    }
    if let Some(wallet) = params.platform_wallet {
        ctx.protocol_config.platform_wallet = wallet;
    }
    if let Some(bps) = params.platform_fee_bps {
        ctx.protocol_config.platform_fee_bps = bps;
    }
    if let Some(bps) = params.creator_fee_bps {
        ctx.protocol_config.creator_fee_bps = bps;
    }
    if let Some(cost) = params.launch_cost {
        ctx.protocol_config.launch_cost = cost;
    }
    Ok(())
}

} // verus!
