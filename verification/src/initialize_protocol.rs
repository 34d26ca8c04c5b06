//! `initialize_protocol`: the one-time creation of the global config. The
//! caller becomes the protocol authority.
use vstd::prelude::*;
use crate::constants::MAX_FEE_BPS;
use crate::errors::VaultpadError;
use crate::pubkey::Pubkey;
use crate::state::ProtocolConfig;

verus! {

/// The settings the protocol starts with.
#[derive(Debug, PartialEq, Eq)]
pub struct InitializeProtocolParams {
    /// Treasury that receives the platform fee.
    pub platform_wallet: Pubkey,
    /// Platform fee in basis points (100 = 1%).
    pub platform_fee_bps: u16,
    /// Creator fee in basis points (100 = 1%).
    pub creator_fee_bps: u16,
    /// Lamports it costs to launch a token.
    pub launch_cost: u64,
}

/// The accounts of the initialization, as plain values.
#[derive(Debug, PartialEq, Eq)]
pub struct InitializeProtocol {
    /// The signer, who becomes the authority.
    pub authority: Pubkey,
    /// Bump of the config address.
    pub protocol_config_bump: u8,
}

/// Every reason an initialization is refused: a fee above the hard cap.
pub open spec fn initialize_protocol_rejection(params: InitializeProtocolParams) -> Option<
    VaultpadError,
> {
    if params.platform_fee_bps > MAX_FEE_BPS {
        Some(VaultpadError::FeeTooHigh)
    } else if params.creator_fee_bps > MAX_FEE_BPS {
        Some(VaultpadError::FeeTooHigh)
    } else {
        None
    }
}

/// Creates the global config with zeroed statistics.
pub fn handler(ctx: &InitializeProtocol, params: InitializeProtocolParams) -> (r: Result<
    ProtocolConfig,
    VaultpadError,
>)
    ensures
        r is Err <==> initialize_protocol_rejection(params) is Some,
        r is Err ==> r->Err_0 == initialize_protocol_rejection(params)->Some_0,
        r is Ok ==> {
            let c = r->Ok_0;
            &&& c.authority == ctx.authority
            &&& c.platform_wallet == params.platform_wallet
            &&& c.platform_fee_bps == params.platform_fee_bps
            &&& c.creator_fee_bps == params.creator_fee_bps
            &&& c.launch_cost == params.launch_cost
            &&& c.total_launches == 0
            &&& c.total_volume == 0
            &&& c.total_fees_collected == 0
            &&& c.bump == ctx.protocol_config_bump
            &&& c._reserved@ == Seq::new(64, |_i: int| 0u8)
        },
{
    if params.platform_fee_bps > MAX_FEE_BPS {
        return Err(VaultpadError::FeeTooHigh);
    }
    if params.creator_fee_bps > MAX_FEE_BPS {
        return Err(VaultpadError::FeeTooHigh);
    }
    let config = ProtocolConfig {
        authority: ctx.authority,
        platform_wallet: params.platform_wallet,
        platform_fee_bps: params.platform_fee_bps,
        creator_fee_bps: params.creator_fee_bps,
        launch_cost: params.launch_cost,
        total_launches: 0,
        total_volume: 0,
        total_fees_collected: 0,
        bump: ctx.protocol_config_bump,
        _reserved: [0u8; 64],
    };
    assert(config._reserved@ =~= Seq::new(64, |_i: int| 0u8));
    Ok(config)
}

} // verus!
