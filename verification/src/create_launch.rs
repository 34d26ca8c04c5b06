//! `create_launch`: a new token with its full supply minted into the curve
//! vault, a constant-product curve, and a randomized creator lock over 10%.
use vstd::prelude::*;
use vstd::arithmetic::power::{lemma_pow_increases, pow};
use vstd::string::StrSliceExecFns;
use crate::constants::{
    CATEGORY_CAUSE, CREATOR_LOCK_MAX, CREATOR_LOCK_MIN, CREATOR_LOCK_PERCENT,
    INITIAL_VIRTUAL_SOL, MAX_HANDLE_LEN, MAX_NAME_LEN, MAX_TICKER_LEN, MAX_URI_LEN,
    TOKEN_DECIMALS, TOKEN_SUPPLY,
};
use crate::errors::VaultpadError;
use crate::lock_timer::{duration_in_window, spec_duration, spec_timer_seed, timer_seed};
use crate::pubkey::{spec_default_key, Pubkey};
use crate::state::{Clock, LaunchState, ProtocolConfig};

verus! {

/// What the creator asks for.
#[derive(Debug, PartialEq, Eq)]
pub struct CreateLaunchParams {
    pub name: String,
    pub ticker: String,
    pub uri: String,
    pub category: u8,
    pub fee_redirect_type: u8,
    pub fee_redirect_handle: String,
    pub charity_authority: Option<Pubkey>,
}

/// The accounts of a launch creation, as the values the instruction reads and writes.
#[derive(Debug, PartialEq, Eq)]
pub struct CreateLaunch {
    pub protocol_config: ProtocolConfig,
    /// The new mint.
    pub mint: Pubkey,
    /// The signer, who pays and becomes the creator.
    pub creator: Pubkey,
    /// The charity wallet address of this mint.
    pub charity_wallet: Pubkey,
    /// The platform wallet account passed in.
    pub platform_wallet: Pubkey,
    /// Bump of the launch state address.
    pub launch_state_bump: u8,
    /// Bump of the SOL vault address.
    pub sol_vault_bump: u8,
}

/// What an accepted launch creates and what has to move.
#[derive(Debug, PartialEq, Eq)]
pub struct CreateLaunchReceipt {
    /// The new launch state account.
    pub launch_state: LaunchState,
    /// Lamports from the creator to the platform wallet.
    pub launch_cost: u64,
    /// Tokens minted into the launch's token vault.
    pub minted_supply: u64,
    /// Seconds until the creator lock opens.
    pub creator_lock_duration: i64,
}

/// The length of a string in characters.
pub open spec fn char_len(s: String) -> int {
    s@.len() as int
}

/// The full supply in base units: `TOKEN_SUPPLY * 10^TOKEN_DECIMALS`.
pub open spec fn spec_launch_supply() -> int {
    TOKEN_SUPPLY * pow(10, TOKEN_DECIMALS as nat)
}

/// The creator's locked share: 10% of the supply.
pub open spec fn spec_creator_locked(supply: int) -> int {
    supply * (CREATOR_LOCK_PERCENT as int) / 100
}

pub open spec fn create_launch_lock_duration(ctx: CreateLaunch, clock: Clock) -> int {
    spec_duration(spec_timer_seed(clock, ctx.creator@, 0), CREATOR_LOCK_MIN, CREATOR_LOCK_MAX)
}

/// Every reason a launch is refused, in the order the checks are made.
pub open spec fn create_launch_rejection(ctx: CreateLaunch, params: CreateLaunchParams) -> Option<
    VaultpadError,
> {
    if ctx.platform_wallet@ != ctx.protocol_config.platform_wallet@ {
        Some(VaultpadError::ConstraintViolated)
    } else if char_len(params.name) > MAX_NAME_LEN {
        Some(VaultpadError::NameTooLong)
    } else if char_len(params.ticker) > MAX_TICKER_LEN {
        Some(VaultpadError::TickerTooLong)
    } else if char_len(params.uri) > MAX_URI_LEN {
        Some(VaultpadError::UriTooLong)
    } else if char_len(params.fee_redirect_handle) > MAX_HANDLE_LEN {
        Some(VaultpadError::HandleTooLong)
    } else if params.category > 3 {
        Some(VaultpadError::InvalidCategory)
    } else {
        None
    }
}

/// The launch state an accepted launch creates: the full supply as virtual
/// token reserve, 90% of it as real token reserve, 10% locked for the
/// creator, 0.5 SOL of virtual SOL, and the charity wallet and authority set
/// for cause tokens only (all zero otherwise).
pub open spec fn is_created_launch(
    l: LaunchState,
    ctx: CreateLaunch,
    clock: Clock,
    params: CreateLaunchParams,
) -> bool {
    let supply = spec_launch_supply();
    let locked = spec_creator_locked(supply);
    let is_cause = params.category == CATEGORY_CAUSE;
    &&& l.mint == ctx.mint
    &&& l.creator == ctx.creator
    &&& l.name == params.name
    &&& l.ticker == params.ticker
    &&& l.uri == params.uri
    &&& l.category == params.category
    &&& l.fee_redirect_type == params.fee_redirect_type
    &&& l.fee_redirect_handle == params.fee_redirect_handle
    &&& l.virtual_sol_reserves == INITIAL_VIRTUAL_SOL
    &&& l.virtual_token_reserves == supply
    &&& l.real_sol_reserves == 0
    &&& l.real_token_reserves == supply - locked
    &&& !l.graduated
    &&& l.total_supply == supply
    &&& l.creator_lock_unlock_time == clock.unix_timestamp + create_launch_lock_duration(
        ctx,
        clock,
    )
    &&& !l.creator_lock_claimed
    &&& l.creator_locked_tokens == locked
    &&& l.charity_wallet@ == if is_cause {
        ctx.charity_wallet@
    } else {
        spec_default_key()
    }
    &&& l.charity_authority@ == if is_cause {
        params.charity_authority.unwrap_or(ctx.creator)@
    } else {
        spec_default_key()
    }
    &&& l.volume == 0
    &&& l.fees_generated == 0
    &&& l.trade_count == 0
    &&& l.total_locks_created == 0
    &&& l.penalty_locks_issued == 0
    &&& l.created_at == clock.unix_timestamp
    &&& l.last_buy_slot == 0
    &&& l.buys_in_current_slot == 0
    &&& l.slot_first_lock_id == 0
    &&& l.slot_first_buyer@ == spec_default_key()
    &&& l.bump == ctx.launch_state_bump
    &&& l.sol_vault_bump == ctx.sol_vault_bump
    &&& l._reserved@ == Seq::new(32, |_i: int| 0u8)
}

/// `10^exp`, as `u64::pow` computes it.
fn pow10(exp: u32) -> (r: u64)
    requires
        exp <= 18,
    ensures
        r == pow(10, exp as nat),
{
    proof {
        reveal_with_fuel(pow, 19);
        assert(pow(10, 18) == 1_000_000_000_000_000_000);
    }
    let mut r: u64 = 1;
    let mut i: u32 = 0;
    while i < exp
        invariant
            i <= exp <= 18,
            r == pow(10, i as nat),
            pow(10, 18) == 1_000_000_000_000_000_000,
        decreases exp - i,
    {
        proof {
            reveal(pow);
            assert(pow(10, (i + 1) as nat) == 10 * pow(10, i as nat));
            lemma_pow_increases(10, (i + 1) as nat, 18);
        }
        r = r * 10;
        i = i + 1;
    }
    r
}

/// The outcome of a launch creation that does not abort.
pub open spec fn create_launch_outcome(
    pre: CreateLaunch,
    post: CreateLaunch,
    clock: Clock,
    params: CreateLaunchParams,
    r: Result<CreateLaunchReceipt, VaultpadError>,
) -> bool {
    &&& r is Err <==> create_launch_rejection(pre, params) is Some
    &&& r is Err ==> r->Err_0 == create_launch_rejection(pre, params)->Some_0 && post == pre
    &&& r is Ok ==> {
        &&& clock.unix_timestamp + create_launch_lock_duration(pre, clock) <= i64::MAX
        &&& pre.protocol_config.total_launches < u64::MAX
        &&& post == (CreateLaunch {
            protocol_config: ProtocolConfig {
                total_launches: (pre.protocol_config.total_launches + 1) as u64,
                ..pre.protocol_config
            },
            ..pre
        })
        &&& is_created_launch(r->Ok_0.launch_state, pre, clock, params)
        &&& r->Ok_0.launch_cost == pre.protocol_config.launch_cost
        &&& r->Ok_0.minted_supply == spec_launch_supply()
        &&& r->Ok_0.creator_lock_duration == create_launch_lock_duration(pre, clock)
    }
}

/// The launch aborts the transaction: the creator unlock time or the launch
/// counter overflows.
pub open spec fn create_launch_aborts(ctx: CreateLaunch, clock: Clock, params: CreateLaunchParams) -> bool {
    create_launch_rejection(ctx, params) is None && !(clock.unix_timestamp
        + create_launch_lock_duration(ctx, clock) <= i64::MAX
        && ctx.protocol_config.total_launches < u64::MAX)
}

/// Creates a new token launch with its bonding curve.
pub fn handler(ctx: &mut CreateLaunch, clock: Clock, params: CreateLaunchParams) -> (r: Result<
    CreateLaunchReceipt,
    VaultpadError,
>)
    requires
        create_launch_rejection(*old(ctx), params) is None ==> clock.unix_timestamp
            + create_launch_lock_duration(*old(ctx), clock) <= i64::MAX
            && old(ctx).protocol_config.total_launches < u64::MAX,
    ensures
        create_launch_outcome(*old(ctx), *final(ctx), clock, params, r),
{
    match try_handler(ctx, clock, params) {
        Some(r) => r,
        None => vstd::pervasive::unreached(),
    }
}

/// Creates a new token launch, or reports (`None`, nothing changed) that the
/// transaction aborts because the creator unlock time or the launch counter
/// overflows.
pub fn try_handler(ctx: &mut CreateLaunch, clock: Clock, params: CreateLaunchParams) -> (r: Option<
    Result<CreateLaunchReceipt, VaultpadError>,
>)
    ensures
        r is None <==> create_launch_aborts(*old(ctx), clock, params),
        r is None ==> *final(ctx) == *old(ctx),
        r is Some ==> create_launch_outcome(*old(ctx), *final(ctx), clock, params, r->Some_0),
{
    // ─── Account constraints ────────────────────────────────
    if !ctx.platform_wallet.same_as(&ctx.protocol_config.platform_wallet) {
        return Some(Err(VaultpadError::ConstraintViolated));
    }
    if params.name.as_str().unicode_len() > MAX_NAME_LEN {
        return Some(Err(VaultpadError::NameTooLong));
    }
    if params.ticker.as_str().unicode_len() > MAX_TICKER_LEN {
        return Some(Err(VaultpadError::TickerTooLong));
    }
    if params.uri.as_str().unicode_len() > MAX_URI_LEN {
        return Some(Err(VaultpadError::UriTooLong));
    }
    if params.fee_redirect_handle.as_str().unicode_len() > MAX_HANDLE_LEN {
        return Some(Err(VaultpadError::HandleTooLong));
    }
    if params.category > 3 {
        return Some(Err(VaultpadError::InvalidCategory));
    }
    // ─── Mint the full supply ───────────────────────────────
    let scale: u64 = pow10(TOKEN_DECIMALS as u32);
    proof {
        reveal_with_fuel(pow, 7);
        assert(scale == 1_000_000);
    }
    let supply: u64 = match TOKEN_SUPPLY.checked_mul(scale) {
        Some(v) => v,
        None => return Some(Err(VaultpadError::MathOverflow)),
    };
    // ─── Randomized creator lock ────────────────────────────
    let seed: u64 = timer_seed(clock, &ctx.creator, 0);
    let creator_lock_duration: i64 = duration_in_window(seed, CREATOR_LOCK_MIN, CREATOR_LOCK_MAX);
    let unlock_time: i64 = match clock.unix_timestamp.checked_add(creator_lock_duration) {
        Some(t) => t,
        None => return None,
    };
    let total_launches: u64 = match ctx.protocol_config.total_launches.checked_add(1) {
        Some(v) => v,
        None => return None,
    };
    let locked: u64 = supply.checked_mul(CREATOR_LOCK_PERCENT).unwrap().checked_div(100).unwrap();
    let curve_tokens: u64 = supply.checked_sub(locked).unwrap();
    let is_cause = params.category == CATEGORY_CAUSE;
    let charity_authority = if is_cause {
        params.charity_authority.unwrap_or(ctx.creator)
    } else {
        Pubkey::zeroed()
    };
    let charity_wallet = if is_cause {
        ctx.charity_wallet
    } else {
        Pubkey::zeroed()
    };
    let launch_state = LaunchState {
        mint: ctx.mint,
        creator: ctx.creator,
        name: params.name,
        ticker: params.ticker,
        uri: params.uri,
        category: params.category,
        fee_redirect_type: params.fee_redirect_type,
        fee_redirect_handle: params.fee_redirect_handle,
        virtual_sol_reserves: INITIAL_VIRTUAL_SOL,
        virtual_token_reserves: supply,
        real_sol_reserves: 0,
        real_token_reserves: curve_tokens,
        graduated: false,
        total_supply: supply,
        creator_lock_unlock_time: unlock_time,
        creator_lock_claimed: false,
        creator_locked_tokens: locked,
        charity_wallet,
        charity_authority,
        volume: 0,
        fees_generated: 0,
        trade_count: 0,
        total_locks_created: 0,
        penalty_locks_issued: 0,
        created_at: clock.unix_timestamp,
        last_buy_slot: 0,
        buys_in_current_slot: 0,
        slot_first_lock_id: 0,
        slot_first_buyer: Pubkey::zeroed(),
        bump: ctx.launch_state_bump,
        sol_vault_bump: ctx.sol_vault_bump,
        _reserved: [0u8; 32],
    };
    assert(launch_state._reserved@ =~= Seq::new(32, |_i: int| 0u8));
    ctx.protocol_config.total_launches = total_launches;
    Some(Ok(
        CreateLaunchReceipt {
            launch_state,
            launch_cost: ctx.protocol_config.launch_cost,
            minted_supply: supply,
            creator_lock_duration,
        },
    ))
}

} // verus!
