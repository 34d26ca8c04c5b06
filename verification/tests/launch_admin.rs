use vaultpad::claim_creator_lock::{self, ClaimCreatorLock};
use vaultpad::create_launch::{self, CreateLaunch, CreateLaunchParams};
use vaultpad::errors::VaultpadError;
use vaultpad::initialize_protocol::{self, InitializeProtocol, InitializeProtocolParams};
use vaultpad::pubkey::Pubkey;
use vaultpad::state::{Clock, ProtocolConfig};
use vaultpad::update_protocol::{self, UpdateProtocol, UpdateProtocolParams};
use vaultpad::withdraw_charity::{self, WithdrawCharity};

fn key(b: u8) -> Pubkey {
    let mut bytes = [0u8; 32];
    bytes[0] = b;
    Pubkey::new(bytes)
}

const MINT: u8 = 1;
const CREATOR: u8 = 5;
const PLATFORM: u8 = 3;
const AUTHORITY: u8 = 4;
const CHARITY_PDA: u8 = 20;
const CHARITY_AUTH: u8 = 21;

fn config() -> ProtocolConfig {
    let ctx = InitializeProtocol { authority: key(AUTHORITY), protocol_config_bump: 255 };
    initialize_protocol::handler(
        &ctx,
        InitializeProtocolParams {
            platform_wallet: key(PLATFORM),
            platform_fee_bps: 100,
            creator_fee_bps: 100,
            launch_cost: 2_500_000_000,
        },
    )
    .unwrap()
}

fn launch_ctx() -> CreateLaunch {
    CreateLaunch {
        protocol_config: config(),
        mint: key(MINT),
        creator: key(CREATOR),
        charity_wallet: key(CHARITY_PDA),
        platform_wallet: key(PLATFORM),
        launch_state_bump: 254,
        sol_vault_bump: 253,
    }
}

fn params(category: u8) -> CreateLaunchParams {
    CreateLaunchParams {
        name: String::from("Vault"),
        ticker: String::from("VLT"),
        uri: String::from("https://example.org/v.json"),
        category,
        fee_redirect_type: 1,
        fee_redirect_handle: String::from("vaultdev"),
        charity_authority: Some(key(CHARITY_AUTH)),
    }
}

fn clock() -> Clock {
    Clock { slot: 1000, unix_timestamp: 1_700_000_000 }
}

#[test]
fn initialize_sets_config() {
    let c = config();
    assert_eq!(c.authority, key(AUTHORITY));
    assert_eq!(c.platform_wallet, key(PLATFORM));
    assert_eq!(c.platform_fee_bps, 100);
    assert_eq!(c.creator_fee_bps, 100);
    assert_eq!(c.launch_cost, 2_500_000_000);
    assert_eq!(c.total_launches, 0);
    assert_eq!(c.total_volume, 0);
    assert_eq!(c.total_fees_collected, 0);
    assert_eq!(c.bump, 255);
}

#[test]
fn initialize_refuses_fees_over_cap() {
    let ctx = InitializeProtocol { authority: key(AUTHORITY), protocol_config_bump: 255 };
    let p = InitializeProtocolParams {
        platform_wallet: key(PLATFORM),
        platform_fee_bps: 501,
        creator_fee_bps: 100,
        launch_cost: 1,
    };
    assert_eq!(initialize_protocol::handler(&ctx, p).unwrap_err(), VaultpadError::FeeTooHigh);
    let p = InitializeProtocolParams {
        platform_wallet: key(PLATFORM),
        platform_fee_bps: 500,
        creator_fee_bps: 501,
        launch_cost: 1,
    };
    assert_eq!(initialize_protocol::handler(&ctx, p).unwrap_err(), VaultpadError::FeeTooHigh);
}

#[test]
fn update_changes_only_given_fields() {
    let mut ctx = UpdateProtocol { protocol_config: config(), authority: key(AUTHORITY) };
    let p = UpdateProtocolParams {
        platform_wallet: None,
        platform_fee_bps: Some(500),
        creator_fee_bps: None,
        launch_cost: Some(1_000),
    };
    assert_eq!(update_protocol::handler(&mut ctx, p), Ok(()));
    assert_eq!(ctx.protocol_config.platform_fee_bps, 500);
    assert_eq!(ctx.protocol_config.creator_fee_bps, 100);
    assert_eq!(ctx.protocol_config.launch_cost, 1_000);
    assert_eq!(ctx.protocol_config.platform_wallet, key(PLATFORM));
}

#[test]
fn update_refusals() {
    let mut ctx = UpdateProtocol { protocol_config: config(), authority: key(99) };
    let p = UpdateProtocolParams {
        platform_wallet: Some(key(98)),
        platform_fee_bps: None,
        creator_fee_bps: None,
        launch_cost: None,
    };
    assert_eq!(update_protocol::handler(&mut ctx, p), Err(VaultpadError::Unauthorized));
    assert_eq!(ctx.protocol_config, config());
    let mut ctx = UpdateProtocol { protocol_config: config(), authority: key(AUTHORITY) };
    let p = UpdateProtocolParams {
        platform_wallet: Some(key(98)),
        platform_fee_bps: None,
        creator_fee_bps: Some(501),
        launch_cost: None,
    };
    assert_eq!(update_protocol::handler(&mut ctx, p), Err(VaultpadError::FeeTooHigh));
    assert_eq!(ctx.protocol_config, config());
}

#[test]
fn create_launch_mints_supply_and_sets_curve() {
    let mut ctx = launch_ctx();
    let r = create_launch::handler(&mut ctx, clock(), params(0)).unwrap();
    assert_eq!(r.minted_supply, 1_000_000_000_000_000);
    assert_eq!(r.launch_cost, 2_500_000_000);
    // seed = 1000 * 1_700_000_000 + 5; duration = 3600 + seed % 82800
    assert_eq!(r.creator_lock_duration, 83_605);
    let l = r.launch_state;
    assert_eq!(l.mint, key(MINT));
    assert_eq!(l.creator, key(CREATOR));
    assert_eq!(l.name, "Vault");
    assert_eq!(l.ticker, "VLT");
    assert_eq!(l.fee_redirect_handle, "vaultdev");
    assert_eq!(l.fee_redirect_type, 1);
    assert_eq!(l.virtual_sol_reserves, 500_000_000);
    assert_eq!(l.virtual_token_reserves, 1_000_000_000_000_000);
    assert_eq!(l.real_sol_reserves, 0);
    assert_eq!(l.real_token_reserves, 900_000_000_000_000);
    assert_eq!(l.creator_locked_tokens, 100_000_000_000_000);
    assert_eq!(l.total_supply, 1_000_000_000_000_000);
    assert_eq!(l.creator_lock_unlock_time, 1_700_083_605);
    assert_eq!(l.created_at, 1_700_000_000);
    assert!(!l.graduated && !l.creator_lock_claimed);
    // not a cause token: no charity wallet
    assert_eq!(l.charity_wallet, Pubkey::zeroed());
    assert_eq!(l.charity_authority, Pubkey::zeroed());
    assert_eq!(l.bump, 254);
    assert_eq!(l.slot_first_lock_id, 0);
    assert_eq!(l.sol_vault_bump, 253);
    assert_eq!(l.max_wallet_tokens(), 40_000_000_000_000);
    assert_eq!(ctx.protocol_config.total_launches, 1);
}

#[test]
fn cause_launch_sets_charity() {
    let mut ctx = launch_ctx();
    let r = create_launch::handler(&mut ctx, clock(), params(2)).unwrap();
    assert_eq!(r.launch_state.charity_wallet, key(CHARITY_PDA));
    assert_eq!(r.launch_state.charity_authority, key(CHARITY_AUTH));
    let mut p = params(2);
    p.charity_authority = None;
    let r = create_launch::handler(&mut ctx, clock(), p).unwrap();
    assert_eq!(r.launch_state.charity_authority, key(CREATOR));
    assert_eq!(ctx.protocol_config.total_launches, 2);
}

#[test]
fn create_launch_refusals() {
    let mut ctx = launch_ctx();
    let mut p = params(0);
    p.name = "x".repeat(33);
    assert_eq!(create_launch::handler(&mut ctx, clock(), p).unwrap_err(), VaultpadError::NameTooLong);
    let mut p = params(0);
    p.ticker = "x".repeat(11);
    assert_eq!(create_launch::handler(&mut ctx, clock(), p).unwrap_err(), VaultpadError::TickerTooLong);
    let mut p = params(0);
    p.uri = "x".repeat(201);
    assert_eq!(create_launch::handler(&mut ctx, clock(), p).unwrap_err(), VaultpadError::UriTooLong);
    let mut p = params(0);
    p.fee_redirect_handle = "x".repeat(65);
    assert_eq!(create_launch::handler(&mut ctx, clock(), p).unwrap_err(), VaultpadError::HandleTooLong);
    assert_eq!(create_launch::handler(&mut ctx, clock(), params(4)).unwrap_err(), VaultpadError::InvalidCategory);
    // lengths are counted in characters
    let mut p = params(0);
    p.ticker = "é".repeat(11);
    assert_eq!(create_launch::handler(&mut ctx, clock(), p).unwrap_err(), VaultpadError::TickerTooLong);
    ctx.platform_wallet = key(99);
    assert_eq!(create_launch::handler(&mut ctx, clock(), params(0)).unwrap_err(), VaultpadError::ConstraintViolated);
    assert_eq!(ctx.protocol_config.total_launches, 0);
}

#[test]
fn limits_count_characters_not_bytes() {
    let mut ctx = launch_ctx();
    let mut p = params(0);
    p.name = "é".repeat(20);
    p.ticker = "é".repeat(10);
    let r = create_launch::handler(&mut ctx, clock(), p).unwrap();
    assert_eq!(r.launch_state.name, "é".repeat(20));
    assert_eq!(r.launch_state.ticker, "é".repeat(10));
}

#[test]
fn launch_counter_overflow_aborts() {
    let mut ctx = launch_ctx();
    ctx.protocol_config.total_launches = u64::MAX;
    assert!(create_launch::try_handler(&mut ctx, clock(), params(0)).is_none());
    assert_eq!(ctx.protocol_config.total_launches, u64::MAX);
    let mut bad = params(9);
    bad.name = String::from("x");
    assert_eq!(
        create_launch::try_handler(&mut ctx, clock(), bad).unwrap().unwrap_err(),
        VaultpadError::InvalidCategory
    );
}

#[test]
fn limits_are_inclusive() {
    let mut ctx = launch_ctx();
    let mut p = params(3);
    p.name = "x".repeat(32);
    p.ticker = "x".repeat(10);
    p.uri = "x".repeat(200);
    p.fee_redirect_handle = "x".repeat(64);
    assert!(create_launch::handler(&mut ctx, clock(), p).is_ok());
}

#[test]
fn creator_lock_claimed_once_after_expiry() {
    let mut ctx = launch_ctx();
    let launch = create_launch::handler(&mut ctx, clock(), params(0)).unwrap().launch_state;
    let mut claim = ClaimCreatorLock { launch_state: launch, creator: key(CREATOR) };
    let early = Clock { slot: 2000, unix_timestamp: 1_700_083_604 };
    let late = Clock { slot: 2001, unix_timestamp: 1_700_083_605 };
    assert_eq!(claim_creator_lock::handler(&mut claim, early), Err(VaultpadError::LockNotExpired));
    assert_eq!(claim_creator_lock::handler(&mut claim, late), Ok(100_000_000_000_000));
    assert!(claim.launch_state.creator_lock_claimed);
    assert_eq!(claim_creator_lock::handler(&mut claim, late), Err(VaultpadError::AlreadyClaimed));
    claim.creator = key(99);
    assert_eq!(claim_creator_lock::handler(&mut claim, late), Err(VaultpadError::Unauthorized));
}

#[test]
fn charity_withdrawals() {
    let mut ctx = launch_ctx();
    let cause = create_launch::handler(&mut ctx, clock(), params(2)).unwrap().launch_state;
    let w = WithdrawCharity {
        launch_state: cause,
        authority: key(CHARITY_AUTH),
        charity_balance: 10_000_000,
        rent_exempt_minimum: 890_880,
    };
    assert_eq!(withdraw_charity::handler(&w, 9_109_120), Ok(9_109_120));
    assert_eq!(withdraw_charity::handler(&w, 9_109_121), Err(VaultpadError::InsufficientFunds));
    let w2 = WithdrawCharity { authority: key(CREATOR), ..w };
    assert_eq!(withdraw_charity::handler(&w2, 1), Err(VaultpadError::Unauthorized));

    let meme = create_launch::handler(&mut ctx, clock(), params(0)).unwrap().launch_state;
    let w3 = WithdrawCharity {
        launch_state: meme,
        authority: Pubkey::zeroed(),
        charity_balance: 10_000_000,
        rent_exempt_minimum: 890_880,
    };
    assert_eq!(withdraw_charity::handler(&w3, 1), Err(VaultpadError::NotCauseToken));
}
