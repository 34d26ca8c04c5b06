//! `sell`: claimed tokens back to the curve, lamports out of the SOL vault.
use vstd::prelude::*;
use crate::constants::CATEGORY_CAUSE;
use crate::errors::VaultpadError;
use crate::fees::{fee_of, spec_fee};
use crate::pubkey::Pubkey;
use crate::state::{curve_out, LaunchState, ProtocolConfig, WalletTracker};

verus! {

/// The accounts of a sell, as the values the instruction reads and writes.
#[derive(Debug, PartialEq, Eq)]
pub struct Sell {
    pub protocol_config: ProtocolConfig,
    pub launch_state: LaunchState,
    /// The seller's tracker for this launch.
    pub wallet_tracker: WalletTracker,
    /// Tokens in the seller's token account.
    pub seller_token_amount: u64,
    /// The platform wallet account passed in.
    pub platform_wallet: Pubkey,
    /// The creator wallet account passed in.
    pub creator_wallet: Pubkey,
}

/// What an accepted sell moves.
#[derive(Debug, PartialEq, Eq)]
pub struct SellReceipt {
    /// Tokens from the seller's token account to the vault.
    pub tokens_in: u64,
    /// What the curve pays for them, before fees.
    pub gross_sol: u64,
    /// Lamports from the SOL vault to the seller (moved only if non-zero).
    pub net_sol: u64,
    /// Lamports from the SOL vault to the platform wallet (moved only if non-zero).
    pub platform_fee: u64,
    /// Lamports from the SOL vault to the creator or charity wallet (moved only if non-zero).
    pub creator_fee: u64,
    /// Whether the creator fee goes to the charity wallet instead of the creator.
    pub creator_fee_to_charity: bool,
}

/// What the curve pays for `tokens_in`, before fees.
pub open spec fn sell_gross_sol(ctx: Sell, tokens_in: u64) -> int {
    curve_out(
        ctx.launch_state.virtual_token_reserves as int,
        ctx.launch_state.virtual_sol_reserves as int,
        tokens_in as int,
        ctx.launch_state.real_sol_reserves as int,
    )
}

pub open spec fn sell_platform_fee(ctx: Sell, tokens_in: u64) -> u64 {
    spec_fee(sell_gross_sol(ctx, tokens_in) as u64, ctx.protocol_config.platform_fee_bps)
}

pub open spec fn sell_creator_fee(ctx: Sell, tokens_in: u64) -> u64 {
    spec_fee(sell_gross_sol(ctx, tokens_in) as u64, ctx.protocol_config.creator_fee_bps)
}

/// What the seller receives: the gross amount less both fees.
pub open spec fn sell_net_sol(ctx: Sell, tokens_in: u64) -> int {
    sell_gross_sol(ctx, tokens_in) - sell_platform_fee(ctx, tokens_in) - sell_creator_fee(
        ctx,
        tokens_in,
    )
}

/// Every reason a sell is refused, in the order the checks are made.
pub open spec fn sell_rejection(ctx: Sell, tokens_in: u64, min_sol_out: u64) -> Option<
    VaultpadError,
> {
    let launch = ctx.launch_state;
    if launch.graduated {
        Some(VaultpadError::AlreadyGraduated)
    } else if ctx.platform_wallet@ != ctx.protocol_config.platform_wallet@ {
        Some(VaultpadError::ConstraintViolated)
    } else if ctx.creator_wallet@ != launch.creator@ {
        Some(VaultpadError::ConstraintViolated)
    } else if tokens_in == 0 {
        Some(VaultpadError::InvalidAmount)
    } else if ctx.seller_token_amount < tokens_in {
        Some(VaultpadError::InsufficientTokens)
    } else if sell_platform_fee(ctx, tokens_in) + sell_creator_fee(ctx, tokens_in)
        > sell_gross_sol(ctx, tokens_in) {
        Some(VaultpadError::MathOverflow)
    } else if sell_net_sol(ctx, tokens_in) < min_sol_out {
        Some(VaultpadError::SlippageExceeded)
    } else if launch.virtual_token_reserves + tokens_in > u64::MAX {
        Some(VaultpadError::MathOverflow)
    } else if launch.real_token_reserves + tokens_in > u64::MAX {
        Some(VaultpadError::MathOverflow)
    } else {
        None
    }
}

/// The statistics counters of an accepted sell do not overflow (they are
/// checked and abort the transaction when they would).
pub open spec fn sell_stats_fit(ctx: Sell, tokens_in: u64) -> bool {
    let gross = sell_gross_sol(ctx, tokens_in);
    let fees = sell_platform_fee(ctx, tokens_in) + sell_creator_fee(ctx, tokens_in);
    &&& ctx.launch_state.volume + gross <= u64::MAX
    &&& ctx.launch_state.fees_generated + fees <= u64::MAX
    &&& ctx.launch_state.trade_count < u64::MAX
    &&& ctx.protocol_config.total_volume + gross <= u64::MAX
    &&& ctx.protocol_config.total_fees_collected + fees <= u64::MAX
}

pub open spec fn launch_after_sell(ctx: Sell, tokens_in: u64) -> LaunchState {
    let launch = ctx.launch_state;
    let gross = sell_gross_sol(ctx, tokens_in);
    let fees = sell_platform_fee(ctx, tokens_in) + sell_creator_fee(ctx, tokens_in);
    LaunchState {
        virtual_sol_reserves: (launch.virtual_sol_reserves - gross) as u64,
        virtual_token_reserves: (launch.virtual_token_reserves + tokens_in) as u64,
        real_sol_reserves: (launch.real_sol_reserves - gross) as u64,
        real_token_reserves: (launch.real_token_reserves + tokens_in) as u64,
        volume: (launch.volume + gross) as u64,
        fees_generated: (launch.fees_generated + fees) as u64,
        trade_count: (launch.trade_count + 1) as u64,
        ..launch
    }
}

pub open spec fn config_after_sell(ctx: Sell, tokens_in: u64) -> ProtocolConfig {
    let c = ctx.protocol_config;
    let gross = sell_gross_sol(ctx, tokens_in);
    let fees = sell_platform_fee(ctx, tokens_in) + sell_creator_fee(ctx, tokens_in);
    ProtocolConfig {
        total_volume: (c.total_volume + gross) as u64,
        total_fees_collected: (c.total_fees_collected + fees) as u64,
        ..c
    }
}

/// The outcome of a sell that does not abort: refused with nothing changed,
/// or accepted with exactly this new state and receipt.
pub open spec fn sell_outcome(
    pre: Sell,
    post: Sell,
    tokens_in: u64,
    min_sol_out: u64,
    r: Result<SellReceipt, VaultpadError>,
) -> bool {
    &&& r is Err <==> sell_rejection(pre, tokens_in, min_sol_out) is Some
    &&& r is Err ==> r->Err_0 == sell_rejection(pre, tokens_in, min_sol_out)->Some_0 && post
        == pre
    &&& r is Ok ==> {
        &&& sell_stats_fit(pre, tokens_in)
        &&& post.launch_state == launch_after_sell(pre, tokens_in)
        &&& post.protocol_config == config_after_sell(pre, tokens_in)
        &&& post.wallet_tracker == (WalletTracker {
            claimed_balance: pre.wallet_tracker.claimed_balance.saturating_sub(tokens_in),
            ..pre.wallet_tracker
        })
        &&& post.seller_token_amount == pre.seller_token_amount
        &&& post.platform_wallet == pre.platform_wallet
        &&& post.creator_wallet == pre.creator_wallet
        &&& r->Ok_0.tokens_in == tokens_in
        &&& r->Ok_0.gross_sol == sell_gross_sol(pre, tokens_in)
        &&& r->Ok_0.net_sol == sell_net_sol(pre, tokens_in)
        &&& r->Ok_0.platform_fee == sell_platform_fee(pre, tokens_in)
        &&& r->Ok_0.creator_fee == sell_creator_fee(pre, tokens_in)
        &&& r->Ok_0.creator_fee_to_charity == (pre.launch_state.category == CATEGORY_CAUSE)
    }
}

/// The sell aborts the transaction: a statistics counter overflows.
pub open spec fn sell_aborts(ctx: Sell, tokens_in: u64, min_sol_out: u64) -> bool {
    sell_rejection(ctx, tokens_in, min_sol_out) is None && !sell_stats_fit(ctx, tokens_in)
}

/// Sells `tokens_in` claimed tokens back to the curve.
pub fn handler(ctx: &mut Sell, tokens_in: u64, min_sol_out: u64) -> (r: Result<
    SellReceipt,
    VaultpadError,
>)
    requires
        sell_rejection(*old(ctx), tokens_in, min_sol_out) is None ==> sell_stats_fit(
            *old(ctx),
            tokens_in,
        ),
    ensures
        sell_outcome(*old(ctx), *final(ctx), tokens_in, min_sol_out, r),
{
    match try_handler(ctx, tokens_in, min_sol_out) {
        Some(r) => r,
        None => vstd::pervasive::unreached(),
    }
}

/// Sells `tokens_in` claimed tokens back to the curve, or reports (`None`,
/// nothing changed) that the transaction aborts because a statistics counter
/// overflows.
pub fn try_handler(ctx: &mut Sell, tokens_in: u64, min_sol_out: u64) -> (r: Option<
    Result<SellReceipt, VaultpadError>,
>)
    ensures
        r is None <==> sell_aborts(*old(ctx), tokens_in, min_sol_out),
        r is None ==> *final(ctx) == *old(ctx),
        r is Some ==> sell_outcome(*old(ctx), *final(ctx), tokens_in, min_sol_out, r->Some_0),
{
    // ─── Account constraints ────────────────────────────────
    if ctx.launch_state.graduated {
        return Some(Err(VaultpadError::AlreadyGraduated));
    }
    if !ctx.platform_wallet.same_as(&ctx.protocol_config.platform_wallet) {
        return Some(Err(VaultpadError::ConstraintViolated));
    }
    if !ctx.creator_wallet.same_as(&ctx.launch_state.creator) {
        return Some(Err(VaultpadError::ConstraintViolated));
    }
    if tokens_in == 0 {
        return Some(Err(VaultpadError::InvalidAmount));
    }
    if ctx.seller_token_amount < tokens_in {
        return Some(Err(VaultpadError::InsufficientTokens));
    }
    let gross_sol: u64 = match ctx.launch_state.calculate_sell(tokens_in) {
        Ok(v) => v,
        Err(e) => return Some(Err(e)),
    };
    let platform_fee: u64 = fee_of(gross_sol, ctx.protocol_config.platform_fee_bps);
    let creator_fee: u64 = fee_of(gross_sol, ctx.protocol_config.creator_fee_bps);
    let after_platform: u64 = match gross_sol.checked_sub(platform_fee) {
        Some(v) => v,
        None => return Some(Err(VaultpadError::MathOverflow)),
    };
    let net_sol: u64 = match after_platform.checked_sub(creator_fee) {
        Some(v) => v,
        None => return Some(Err(VaultpadError::MathOverflow)),
    };
    if net_sol < min_sol_out {
        return Some(Err(VaultpadError::SlippageExceeded));
    }
    // ─── Curve ──────────────────────────────────────────────
    let virtual_sol: u64 = match ctx.launch_state.virtual_sol_reserves.checked_sub(gross_sol) {
        Some(v) => v,
        None => return Some(Err(VaultpadError::MathOverflow)),
    };
    let virtual_tokens: u64 = match ctx.launch_state.virtual_token_reserves.checked_add(
        tokens_in,
    ) {
        Some(v) => v,
        None => return Some(Err(VaultpadError::MathOverflow)),
    };
    let real_sol: u64 = match ctx.launch_state.real_sol_reserves.checked_sub(gross_sol) {
        Some(v) => v,
        None => return Some(Err(VaultpadError::MathOverflow)),
    };
    let real_tokens: u64 = match ctx.launch_state.real_token_reserves.checked_add(tokens_in) {
        Some(v) => v,
        None => return Some(Err(VaultpadError::MathOverflow)),
    };
    // ─── Accepted: write the new state ──────────────────────
    let total_fee: u64 = platform_fee + creator_fee;
    let volume: u64 = match ctx.launch_state.volume.checked_add(gross_sol) {
        Some(v) => v,
        None => return None,
    };
    let fees_generated: u64 = match ctx.launch_state.fees_generated.checked_add(total_fee) {
        Some(v) => v,
        None => return None,
    };
    let trade_count: u64 = match ctx.launch_state.trade_count.checked_add(1) {
        Some(v) => v,
        None => return None,
    };
    let total_volume: u64 = match ctx.protocol_config.total_volume.checked_add(gross_sol) {
        Some(v) => v,
        None => return None,
    };
    let total_fees: u64 = match ctx.protocol_config.total_fees_collected.checked_add(total_fee) {
        Some(v) => v,
        None => return None,
    };
    ctx.launch_state.virtual_sol_reserves = virtual_sol;
    ctx.launch_state.virtual_token_reserves = virtual_tokens;
    ctx.launch_state.real_sol_reserves = real_sol;
    ctx.launch_state.real_token_reserves = real_tokens;
    ctx.wallet_tracker.claimed_balance = ctx.wallet_tracker.claimed_balance.saturating_sub(
        tokens_in,
    );
    ctx.launch_state.volume = volume;
    ctx.launch_state.fees_generated = fees_generated;
    ctx.launch_state.trade_count = trade_count;
    ctx.protocol_config.total_volume = total_volume;
    ctx.protocol_config.total_fees_collected = total_fees;
    Some(Ok(
        SellReceipt {
            tokens_in,
            gross_sol,
            net_sol,
            platform_fee,
            creator_fee,
            creator_fee_to_charity: ctx.launch_state.category == CATEGORY_CAUSE,
        },
    ))
}

} // verus!
