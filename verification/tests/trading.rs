use vaultpad::buy::{self, Buy};
use vaultpad::claim_buyer_lock::{self, ClaimBuyerLock};
use vaultpad::errors::VaultpadError;
use vaultpad::flag_same_funder::{self, FlagSameFunder};
use vaultpad::pubkey::Pubkey;
use vaultpad::sell::{self, Sell};
use vaultpad::state::{Clock, LaunchState, ProtocolConfig, WalletTracker};

fn key(b: u8) -> Pubkey {
    let mut bytes = [0u8; 32];
    bytes[0] = b;
    Pubkey::new(bytes)
}

const MINT: u8 = 1;
const CREATOR: u8 = 2;
const PLATFORM: u8 = 3;
const AUTHORITY: u8 = 4;
const BUYER: u8 = 7;
const OTHER_BUYER: u8 = 9;
const FUNDER: u8 = 11;

fn config() -> ProtocolConfig {
    ProtocolConfig {
        authority: key(AUTHORITY),
        platform_wallet: key(PLATFORM),
        platform_fee_bps: 100,
        creator_fee_bps: 100,
        launch_cost: 2_500_000_000,
        total_launches: 1,
        total_volume: 0,
        total_fees_collected: 0,
        bump: 255,
        _reserved: [0u8; 64],
    }
}

fn fresh_launch() -> LaunchState {
    LaunchState {
        mint: key(MINT),
        creator: key(CREATOR),
        name: String::from("Vault"),
        ticker: String::from("VLT"),
        uri: String::from("https://example.org/v.json"),
        category: 0,
        fee_redirect_type: 0,
        fee_redirect_handle: String::from("vault"),
        virtual_sol_reserves: 500_000_000,
        virtual_token_reserves: 1_000_000_000_000_000,
        real_sol_reserves: 0,
        real_token_reserves: 900_000_000_000_000,
        graduated: false,
        total_supply: 1_000_000_000_000_000,
        creator_lock_unlock_time: 1_700_003_600,
        creator_lock_claimed: false,
        creator_locked_tokens: 100_000_000_000_000,
        charity_wallet: Pubkey::zeroed(),
        charity_authority: Pubkey::zeroed(),
        volume: 0,
        fees_generated: 0,
        trade_count: 0,
        total_locks_created: 0,
        penalty_locks_issued: 0,
        created_at: 1_700_000_000,
        last_buy_slot: 0,
        buys_in_current_slot: 0,
        slot_first_lock_id: 0,
        slot_first_buyer: Pubkey::zeroed(),
        bump: 254,
        sol_vault_bump: 253,
        _reserved: [0u8; 32],
    }
}

fn empty_tracker() -> WalletTracker {
    WalletTracker {
        mint: Pubkey::zeroed(),
        wallet: Pubkey::zeroed(),
        total_purchased: 0,
        locked_balance: 0,
        claimed_balance: 0,
        funder: Pubkey::zeroed(),
        flagged: false,
        buy_count: 0,
        last_buy_slot: 0,
        bump: 0,
    }
}

fn buy_ctx(launch: LaunchState, buyer: u8) -> Buy {
    Buy {
        protocol_config: config(),
        launch_state: launch,
        wallet_tracker: empty_tracker(),
        funder_account: key(FUNDER),
        platform_wallet: key(PLATFORM),
        creator_wallet: key(CREATOR),
        buyer: key(buyer),
        wallet_tracker_bump: 250,
        buyer_lock_bump: 249,
        slot_locks: Vec::new(),
        slot_first_tracker: None,
    }
}

fn clock(slot: u64, unix_timestamp: i64) -> Clock {
    Clock { slot, unix_timestamp }
}

#[test]
fn curve_buy_quote_is_constant_product() {
    let launch = fresh_launch();
    // 1e15 - floor(5e8 * 1e15 / (5e8 + 9.8e6))
    assert_eq!(launch.calculate_buy(9_800_000), Ok(19_223_224_794_037));
}

#[test]
fn curve_buy_quote_is_capped_at_real_reserves() {
    let mut launch = fresh_launch();
    launch.real_token_reserves = 1_000;
    assert_eq!(launch.calculate_buy(9_800_000), Ok(1_000));
}

#[test]
fn curve_quotes_divide_by_zero_is_math_overflow() {
    let mut launch = fresh_launch();
    launch.virtual_sol_reserves = 0;
    assert_eq!(launch.calculate_buy(0), Err(VaultpadError::MathOverflow));
    launch.virtual_token_reserves = 0;
    assert_eq!(launch.calculate_sell(0), Err(VaultpadError::MathOverflow));
}

#[test]
fn curve_sell_quote_is_capped_at_real_sol() {
    let launch = fresh_launch();
    // no real SOL in a fresh curve: nothing to pay out
    assert_eq!(launch.calculate_sell(1_000_000), Ok(0));
}

#[test]
fn max_wallet_is_four_percent_of_supply() {
    assert_eq!(fresh_launch().max_wallet_tokens(), 40_000_000_000_000);
}

#[test]
fn buy_escrows_tokens_in_a_normal_lock() {
    let mut ctx = buy_ctx(fresh_launch(), BUYER);
    let r = buy::handler(&mut ctx, clock(1000, 1_700_000_000), 10_000_000, 1).unwrap();
    assert_eq!(r.platform_fee, 100_000);
    assert_eq!(r.creator_fee, 100_000);
    assert_eq!(r.net_sol, 9_800_000);
    assert!(!r.creator_fee_to_charity);
    // seed = 1000 * 1_700_000_000 + 7 + 0; duration = 300 + seed % 1500
    assert_eq!(r.lock_duration, 807);
    let lock = r.buyer_lock;
    assert_eq!(lock.amount, 19_223_224_794_037);
    assert_eq!(lock.unlock_time, 1_700_000_807);
    assert_eq!(lock.lock_id, 0);
    assert_eq!(lock.buyer, key(BUYER));
    assert_eq!(lock.mint, key(MINT));
    assert!(!lock.is_penalty);
    assert!(!lock.claimed);
    assert_eq!(lock.bump, 249);
    // curve and stats
    assert_eq!(ctx.launch_state.virtual_sol_reserves, 509_800_000);
    assert_eq!(ctx.launch_state.virtual_token_reserves, 980_776_775_205_963);
    assert_eq!(ctx.launch_state.real_sol_reserves, 9_800_000);
    assert_eq!(ctx.launch_state.real_token_reserves, 880_776_775_205_963);
    assert_eq!(ctx.launch_state.volume, 10_000_000);
    assert_eq!(ctx.launch_state.fees_generated, 200_000);
    assert_eq!(ctx.launch_state.trade_count, 1);
    assert_eq!(ctx.launch_state.total_locks_created, 1);
    assert_eq!(ctx.launch_state.last_buy_slot, 1000);
    assert_eq!(ctx.launch_state.buys_in_current_slot, 1);
    assert_eq!(ctx.launch_state.penalty_locks_issued, 0);
    // tracker records the funder on the first buy
    assert_eq!(ctx.wallet_tracker.funder, key(FUNDER));
    assert_eq!(ctx.wallet_tracker.wallet, key(BUYER));
    assert_eq!(ctx.wallet_tracker.mint, key(MINT));
    assert_eq!(ctx.wallet_tracker.bump, 250);
    assert_eq!(ctx.wallet_tracker.total_purchased, 19_223_224_794_037);
    assert_eq!(ctx.wallet_tracker.locked_balance, 19_223_224_794_037);
    assert_eq!(ctx.wallet_tracker.buy_count, 1);
    assert!(!ctx.wallet_tracker.flagged);
    assert_eq!(ctx.protocol_config.total_volume, 10_000_000);
    assert_eq!(ctx.protocol_config.total_fees_collected, 200_000);
}

#[test]
fn buy_fees_and_net_add_up() {
    let mut ctx = buy_ctx(fresh_launch(), BUYER);
    let r = buy::handler(&mut ctx, clock(5, 1_700_000_000), 1_234_567, 0).unwrap();
    assert_eq!(r.platform_fee, 12_345);
    assert_eq!(r.creator_fee, 12_345);
    assert_eq!(r.net_sol + r.platform_fee + r.creator_fee, 1_234_567);
}

#[test]
fn buy_lock_timer_uses_timestamp_bits_and_key_bytes() {
    let mut ctx = buy_ctx(fresh_launch(), BUYER);
    ctx.buyer = Pubkey::new([1, 2, 3, 4, 5, 6, 7, 8, 0, 0, 0, 0, 0, 0, 0, 0, 0, 0, 0, 0, 0, 0, 0, 0, 0, 0, 0, 0, 0, 0, 0, 0]);
    ctx.launch_state.total_locks_created = 3;
    // a negative timestamp keeps its u64 bits: seed = 1000*(2^64-5) + 0x0807060504030201 + 3 (mod 2^64)
    let r = buy::handler(&mut ctx, clock(1000, -5), 10_000_000, 0).unwrap();
    assert_eq!(r.lock_duration, 1504);
    assert_eq!(r.buyer_lock.unlock_time, 1499);
    assert_eq!(r.buyer_lock.lock_id, 3);
}

#[test]
fn creator_cannot_buy() {
    let mut ctx = buy_ctx(fresh_launch(), CREATOR);
    let before = buy_ctx(fresh_launch(), CREATOR);
    assert_eq!(
        buy::handler(&mut ctx, clock(1000, 1_700_000_000), 10_000_000, 0).unwrap_err(),
        VaultpadError::CreatorCannotBuy
    );
    assert_eq!(ctx, before);
}

#[test]
fn creator_check_comes_before_amount_check() {
    let mut ctx = buy_ctx(fresh_launch(), CREATOR);
    assert_eq!(
        buy::handler(&mut ctx, clock(1000, 1_700_000_000), 0, 0).unwrap_err(),
        VaultpadError::CreatorCannotBuy
    );
}

#[test]
fn buy_over_the_wallet_cap_is_refused() {
    let mut ctx = buy_ctx(fresh_launch(), BUYER);
    // 1 SOL buys about 66% of the curve, far above the 4% cap
    assert_eq!(
        buy::handler(&mut ctx, clock(1000, 1_700_000_000), 1_000_000_000, 0).unwrap_err(),
        VaultpadError::MaxWalletExceeded
    );
    assert_eq!(ctx, buy_ctx(fresh_launch(), BUYER));
}

#[test]
fn wallet_cap_counts_earlier_purchases() {
    let mut ctx = buy_ctx(fresh_launch(), BUYER);
    ctx.wallet_tracker.buy_count = 1;
    ctx.wallet_tracker.funder = key(FUNDER);
    ctx.wallet_tracker.total_purchased = 40_000_000_000_000 - 19_223_224_794_036;
    assert_eq!(
        buy::handler(&mut ctx, clock(1000, 1_700_000_000), 10_000_000, 0).unwrap_err(),
        VaultpadError::MaxWalletExceeded
    );
    ctx.wallet_tracker.total_purchased = 40_000_000_000_000 - 19_223_224_794_037;
    let r = buy::handler(&mut ctx, clock(1000, 1_700_000_000), 10_000_000, 0).unwrap();
    assert_eq!(r.buyer_lock.amount, 19_223_224_794_037);
    assert_eq!(ctx.wallet_tracker.total_purchased, 40_000_000_000_000);
}

#[test]
fn buy_error_variants() {
    let c = clock(1000, 1_700_000_000);
    let mut ctx = buy_ctx(fresh_launch(), BUYER);
    assert_eq!(buy::handler(&mut ctx, c, 0, 0).unwrap_err(), VaultpadError::InvalidAmount);

    let mut ctx = buy_ctx(fresh_launch(), BUYER);
    assert_eq!(
        buy::handler(&mut ctx, c, 10_000_000, 19_223_224_794_038).unwrap_err(),
        VaultpadError::SlippageExceeded
    );

    let mut ctx = buy_ctx(fresh_launch(), BUYER);
    ctx.launch_state.graduated = true;
    assert_eq!(buy::handler(&mut ctx, c, 10_000_000, 0).unwrap_err(), VaultpadError::AlreadyGraduated);

    let mut ctx = buy_ctx(fresh_launch(), BUYER);
    ctx.platform_wallet = key(99);
    assert_eq!(buy::handler(&mut ctx, c, 10_000_000, 0).unwrap_err(), VaultpadError::ConstraintViolated);

    let mut ctx = buy_ctx(fresh_launch(), BUYER);
    ctx.creator_wallet = key(99);
    assert_eq!(buy::handler(&mut ctx, c, 10_000_000, 0).unwrap_err(), VaultpadError::ConstraintViolated);

    let mut ctx = buy_ctx(fresh_launch(), BUYER);
    ctx.launch_state.real_token_reserves = 0;
    assert_eq!(buy::handler(&mut ctx, c, 10_000_000, 0).unwrap_err(), VaultpadError::CurveDepleted);

    // fees above the whole amount
    let mut ctx = buy_ctx(fresh_launch(), BUYER);
    ctx.protocol_config.platform_fee_bps = 6_000;
    ctx.protocol_config.creator_fee_bps = 6_000;
    assert_eq!(buy::handler(&mut ctx, c, 10_000_000, 0).unwrap_err(), VaultpadError::MathOverflow);

    // an empty curve with nothing paid in
    let mut ctx = buy_ctx(fresh_launch(), BUYER);
    ctx.launch_state.virtual_sol_reserves = 0;
    ctx.protocol_config.platform_fee_bps = 10_000;
    ctx.protocol_config.creator_fee_bps = 0;
    assert_eq!(buy::handler(&mut ctx, c, 10_000_000, 0).unwrap_err(), VaultpadError::MathOverflow);

    // the tracker's locked balance would overflow
    let mut ctx = buy_ctx(fresh_launch(), BUYER);
    ctx.wallet_tracker.buy_count = 1;
    ctx.wallet_tracker.locked_balance = u64::MAX;
    assert_eq!(buy::handler(&mut ctx, c, 10_000_000, 0).unwrap_err(), VaultpadError::MathOverflow);
}

#[test]
fn second_wallet_in_a_slot_penalizes_every_buyer_of_the_slot() {
    let c = clock(1000, 1_700_000_000);
    let mut first = buy_ctx(fresh_launch(), BUYER);
    let r1 = buy::handler(&mut first, c, 10_000_000, 0).unwrap();
    assert!(!r1.buyer_lock.is_penalty);
    assert_eq!(first.launch_state.buys_in_current_slot, 1);
    assert_eq!(first.launch_state.slot_first_lock_id, 0);

    let mut second = buy_ctx(first.launch_state, OTHER_BUYER);
    second.slot_locks = vec![r1.buyer_lock];
    second.slot_first_tracker = Some(first.wallet_tracker);
    let r2 = buy::handler(&mut second, c, 10_000_000, 0).unwrap();
    assert!(r2.buyer_lock.is_penalty);
    // seed = 1000 * 1_700_000_000 + 9 + 1; duration = seed % 259200
    assert_eq!(r2.lock_duration, 252_810);
    assert_eq!(r2.buyer_lock.lock_id, 1);
    assert_eq!(r2.buyer_lock.amount, 18_498_099_301_422);
    assert_eq!(second.launch_state.buys_in_current_slot, 2);
    assert_eq!(second.launch_state.penalty_locks_issued, 2);
    assert!(second.wallet_tracker.flagged);
    // the first buyer's lock becomes a penalty lock too:
    // seed = 1000 * 1_700_000_000 + 7 + 0; duration = seed % 259200
    let relocked = second.slot_locks[0];
    assert!(relocked.is_penalty);
    assert_eq!(relocked.unlock_time, 1_700_000_000 + 252_807);
    assert_eq!(relocked.amount, r1.buyer_lock.amount);
    assert_eq!(relocked.lock_id, 0);
    assert!(!relocked.claimed);
    assert!(second.slot_first_tracker.unwrap().flagged);

    // a third wallet in the slot: a penalty lock, nothing more to relock
    let mut third = buy_ctx(second.launch_state, 13);
    let r3 = buy::handler(&mut third, c, 10_000_000, 0).unwrap();
    assert!(r3.buyer_lock.is_penalty);
    assert_eq!(third.launch_state.buys_in_current_slot, 3);
    assert_eq!(third.launch_state.penalty_locks_issued, 3);
}

#[test]
fn second_wallet_needs_the_slot_accounts() {
    let c = clock(1000, 1_700_000_000);
    let mut first = buy_ctx(fresh_launch(), BUYER);
    let r1 = buy::handler(&mut first, c, 10_000_000, 0).unwrap();
    let mut second = buy_ctx(first.launch_state, OTHER_BUYER);
    assert_eq!(buy::handler(&mut second, c, 10_000_000, 0).unwrap_err(), VaultpadError::ConstraintViolated);
    // a lock of the wrong id is refused too
    let mut wrong = r1.buyer_lock;
    wrong.lock_id = 5;
    second.slot_locks = vec![wrong];
    second.slot_first_tracker = Some(first.wallet_tracker);
    assert_eq!(buy::handler(&mut second, c, 10_000_000, 0).unwrap_err(), VaultpadError::ConstraintViolated);
    assert_eq!(second.slot_locks[0], wrong);
}

#[test]
fn slot_accounts_are_checked_after_every_other_refusal() {
    let c = clock(1000, 1_700_000_000);
    let one_buyer = || {
        let mut first = buy_ctx(fresh_launch(), BUYER);
        buy::handler(&mut first, c, 10_000_000, 0).unwrap();
        first.launch_state
    };
    assert_eq!(one_buyer().slot_first_buyer, key(BUYER));
    // the creator buying in this slot, without the slot accounts
    let mut creator = buy_ctx(one_buyer(), CREATOR);
    assert_eq!(buy::handler(&mut creator, c, 10_000_000, 0).unwrap_err(), VaultpadError::CreatorCannotBuy);
    let mut zero = buy_ctx(one_buyer(), OTHER_BUYER);
    assert_eq!(buy::handler(&mut zero, c, 0, 0).unwrap_err(), VaultpadError::InvalidAmount);
    let mut over = buy_ctx(one_buyer(), OTHER_BUYER);
    assert_eq!(buy::handler(&mut over, c, 1_000_000_000, 0).unwrap_err(), VaultpadError::MaxWalletExceeded);
}

#[test]
fn price_rises_on_buy_and_drops_on_sell() {
    let launch = fresh_launch();
    let (vs0, vt0) = (launch.virtual_sol_reserves as u128, launch.virtual_token_reserves as u128);
    let mut ctx = buy_ctx(launch, BUYER);
    let lock = buy::handler(&mut ctx, clock(1000, 1_700_000_000), 10_000_000, 0).unwrap().buyer_lock;
    let (vs1, vt1) = (ctx.launch_state.virtual_sol_reserves as u128, ctx.launch_state.virtual_token_reserves as u128);
    // vs0/vt0 < vs1/vt1
    assert!(vs0 * vt1 < vs1 * vt0);
    let mut s = sell_ctx(ctx.launch_state, ctx.wallet_tracker, lock.amount);
    sell::handler(&mut s, lock.amount / 2, 0).unwrap();
    let (vs2, vt2) = (s.launch_state.virtual_sol_reserves as u128, s.launch_state.virtual_token_reserves as u128);
    assert!(vs2 * vt1 < vs1 * vt2);
}

#[test]
fn same_wallet_twice_in_a_slot_is_not_a_penalty() {
    let c = clock(1000, 1_700_000_000);
    let mut ctx = buy_ctx(fresh_launch(), BUYER);
    buy::handler(&mut ctx, c, 10_000_000, 0).unwrap();
    let r = buy::handler(&mut ctx, c, 10_000_000, 0).unwrap();
    assert!(!r.buyer_lock.is_penalty);
    assert_eq!(ctx.launch_state.buys_in_current_slot, 1);
    assert_eq!(ctx.launch_state.penalty_locks_issued, 0);
    assert!(!ctx.wallet_tracker.flagged);
    assert_eq!(ctx.wallet_tracker.buy_count, 2);
    assert_eq!(ctx.wallet_tracker.last_buy_slot, 1000);
}

#[test]
fn counter_overflow_aborts_and_changes_nothing() {
    let c = clock(1000, 1_700_000_000);
    let mut ctx = buy_ctx(fresh_launch(), BUYER);
    ctx.launch_state.volume = u64::MAX;
    assert_eq!(buy::try_handler(&mut ctx, c, 10_000_000, 0), None);
    let mut expected = buy_ctx(fresh_launch(), BUYER);
    expected.launch_state.volume = u64::MAX;
    assert_eq!(ctx, expected);
    // a refused buy is refused, not aborted
    let mut creator = buy_ctx(fresh_launch(), CREATOR);
    creator.launch_state.volume = u64::MAX;
    assert_eq!(
        buy::try_handler(&mut creator, c, 10_000_000, 0),
        Some(Err(VaultpadError::CreatorCannotBuy))
    );
    // an unlock time past i64::MAX aborts too
    let mut late = buy_ctx(fresh_launch(), BUYER);
    assert_eq!(buy::try_handler(&mut late, clock(1, i64::MAX - 10), 10_000_000, 0), None);
}

#[test]
fn buy_in_a_new_slot_resets_the_counter() {
    let mut first = buy_ctx(fresh_launch(), BUYER);
    buy::handler(&mut first, clock(1000, 1_700_000_000), 10_000_000, 0).unwrap();
    let mut second = buy_ctx(first.launch_state, OTHER_BUYER);
    let r = buy::handler(&mut second, clock(1001, 1_700_000_400), 10_000_000, 0).unwrap();
    assert!(!r.buyer_lock.is_penalty);
    assert_eq!(second.launch_state.last_buy_slot, 1001);
    assert_eq!(second.launch_state.buys_in_current_slot, 1);
}

#[test]
fn flagged_wallets_get_penalty_locks() {
    // two wallets that bought once, both funded by the same account
    let mut a = empty_tracker();
    a.mint = key(MINT);
    a.wallet = key(BUYER);
    a.funder = key(FUNDER);
    a.buy_count = 1;
    let mut b = a;
    b.wallet = key(OTHER_BUYER);
    let mut flag = FlagSameFunder { launch_state: fresh_launch(), tracker_a: a, tracker_b: b };
    assert_eq!(flag_same_funder::handler(&mut flag), Ok(()));
    assert!(flag.tracker_a.flagged && flag.tracker_b.flagged);

    let mut ctx = buy_ctx(fresh_launch(), BUYER);
    ctx.wallet_tracker = flag.tracker_a;
    let r = buy::handler(&mut ctx, clock(1001, 1_700_000_400), 10_000_000, 0).unwrap();
    assert!(r.buyer_lock.is_penalty);
    // seed = 1001 * 1_700_000_400 + 7 + 0; duration = seed % 259200
    assert_eq!(r.lock_duration, (1001u64 * 1_700_000_400 + 7) as i64 % 259_200);
    assert!(ctx.wallet_tracker.flagged);
    assert_eq!(ctx.wallet_tracker.buy_count, 2);
    // the funder recorded on the first buy is kept
    assert_eq!(ctx.wallet_tracker.funder, key(FUNDER));
}

#[test]
fn flag_same_funder_refusals() {
    let mut a = empty_tracker();
    a.mint = key(MINT);
    a.wallet = key(BUYER);
    a.funder = key(FUNDER);
    a.buy_count = 1;
    let mut b = a;
    b.wallet = key(OTHER_BUYER);

    let mut same_wallet = FlagSameFunder { launch_state: fresh_launch(), tracker_a: a, tracker_b: a };
    assert_eq!(flag_same_funder::handler(&mut same_wallet), Err(VaultpadError::InvalidAmount));
    assert!(!same_wallet.tracker_a.flagged);

    let mut other_funder = b;
    other_funder.funder = key(12);
    let mut different = FlagSameFunder { launch_state: fresh_launch(), tracker_a: a, tracker_b: other_funder };
    assert_eq!(flag_same_funder::handler(&mut different), Err(VaultpadError::Unauthorized));

    let mut za = a;
    za.funder = Pubkey::zeroed();
    let mut zb = b;
    zb.funder = Pubkey::zeroed();
    let mut zero = FlagSameFunder { launch_state: fresh_launch(), tracker_a: za, tracker_b: zb };
    assert_eq!(flag_same_funder::handler(&mut zero), Err(VaultpadError::Unauthorized));

    let mut foreign = b;
    foreign.mint = key(42);
    let mut wrong_mint = FlagSameFunder { launch_state: fresh_launch(), tracker_a: a, tracker_b: foreign };
    assert_eq!(flag_same_funder::handler(&mut wrong_mint), Err(VaultpadError::ConstraintViolated));
    assert!(!wrong_mint.tracker_a.flagged);
}

fn bought_state() -> (LaunchState, WalletTracker, u64) {
    let mut ctx = buy_ctx(fresh_launch(), BUYER);
    let r = buy::handler(&mut ctx, clock(1000, 1_700_000_000), 10_000_000, 0).unwrap();
    (ctx.launch_state, ctx.wallet_tracker, r.buyer_lock.amount)
}

fn sell_ctx(launch: LaunchState, tracker: WalletTracker, held: u64) -> Sell {
    Sell {
        protocol_config: config(),
        launch_state: launch,
        wallet_tracker: tracker,
        seller_token_amount: held,
        platform_wallet: key(PLATFORM),
        creator_wallet: key(CREATOR),
    }
}

#[test]
fn selling_everything_bought_returns_what_entered_the_curve() {
    let (launch, mut tracker, tokens) = bought_state();
    tracker.claimed_balance = tokens;
    tracker.locked_balance = 0;
    let mut ctx = sell_ctx(launch, tracker, tokens);
    let r = sell::handler(&mut ctx, tokens, 0).unwrap();
    assert_eq!(r.gross_sol, 9_800_000);
    assert_eq!(r.platform_fee, 98_000);
    assert_eq!(r.creator_fee, 98_000);
    assert_eq!(r.net_sol, 9_604_000);
    assert_eq!(r.tokens_in, tokens);
    assert_eq!(ctx.launch_state.real_sol_reserves, 0);
    assert_eq!(ctx.launch_state.real_token_reserves, 900_000_000_000_000);
    assert_eq!(ctx.launch_state.virtual_sol_reserves, 500_000_000);
    assert_eq!(ctx.launch_state.virtual_token_reserves, 1_000_000_000_000_000);
    assert_eq!(ctx.launch_state.volume, 19_800_000);
    assert_eq!(ctx.launch_state.fees_generated, 396_000);
    assert_eq!(ctx.launch_state.trade_count, 2);
    assert_eq!(ctx.wallet_tracker.claimed_balance, 0);
    assert_eq!(ctx.protocol_config.total_volume, 9_800_000);
}

#[test]
fn partial_sell_quote() {
    let (launch, tracker, tokens) = bought_state();
    let half = tokens / 2;
    let mut ctx = sell_ctx(launch, tracker, tokens);
    let r = sell::handler(&mut ctx, half, 4_848_604).unwrap();
    assert_eq!(r.gross_sol, 4_947_554);
    assert_eq!(r.net_sol, 4_848_604);
    // claimed balance saturates at zero
    assert_eq!(ctx.wallet_tracker.claimed_balance, 0);
}

#[test]
fn sell_error_variants() {
    let (launch, tracker, tokens) = bought_state();
    let mut ctx = sell_ctx(launch, tracker, tokens);
    assert_eq!(sell::handler(&mut ctx, 0, 0).unwrap_err(), VaultpadError::InvalidAmount);
    assert_eq!(sell::handler(&mut ctx, tokens + 1, 0).unwrap_err(), VaultpadError::InsufficientTokens);
    assert_eq!(sell::handler(&mut ctx, tokens, 9_604_001).unwrap_err(), VaultpadError::SlippageExceeded);
    ctx.launch_state.graduated = true;
    assert_eq!(sell::handler(&mut ctx, tokens, 0).unwrap_err(), VaultpadError::AlreadyGraduated);
    ctx.launch_state.graduated = false;
    ctx.creator_wallet = key(99);
    assert_eq!(sell::handler(&mut ctx, tokens, 0).unwrap_err(), VaultpadError::ConstraintViolated);
    ctx.creator_wallet = key(CREATOR);
    ctx.launch_state.real_token_reserves = u64::MAX;
    assert_eq!(sell::handler(&mut ctx, tokens, 0).unwrap_err(), VaultpadError::MathOverflow);
    // nothing changed by any refusal
    let (launch, tracker, tokens) = bought_state();
    let mut expected = sell_ctx(launch, tracker, tokens);
    expected.launch_state.real_token_reserves = u64::MAX;
    assert_eq!(ctx, expected);
}

#[test]
fn cause_token_fees_go_to_charity() {
    let mut launch = fresh_launch();
    launch.category = 2;
    let mut ctx = buy_ctx(launch, BUYER);
    let r = buy::handler(&mut ctx, clock(1000, 1_700_000_000), 10_000_000, 0).unwrap();
    assert!(r.creator_fee_to_charity);
}

fn claim_ctx(lock_amount: u64) -> ClaimBuyerLock {
    let (launch, tracker, _) = bought_state();
    ClaimBuyerLock {
        launch_state: launch,
        buyer_lock: vaultpad::state::BuyerLock {
            mint: key(MINT),
            buyer: key(BUYER),
            lock_id: 0,
            amount: lock_amount,
            unlock_time: 1_700_000_807,
            claimed: false,
            created_at: 1_700_000_000,
            is_penalty: false,
            bump: 249,
        },
        wallet_tracker: tracker,
        buyer: key(BUYER),
    }
}

#[test]
fn lock_is_claimable_once_after_expiry() {
    let amount = 19_223_224_794_037;
    let mut ctx = claim_ctx(amount);
    assert_eq!(
        claim_buyer_lock::handler(&mut ctx, clock(2000, 1_700_000_806)),
        Err(VaultpadError::LockNotExpired)
    );
    assert_eq!(claim_buyer_lock::handler(&mut ctx, clock(2000, 1_700_000_807)), Ok(amount));
    assert!(ctx.buyer_lock.claimed);
    assert_eq!(ctx.wallet_tracker.locked_balance, 0);
    assert_eq!(ctx.wallet_tracker.claimed_balance, amount);
    assert_eq!(
        claim_buyer_lock::handler(&mut ctx, clock(3000, 1_800_000_000)),
        Err(VaultpadError::AlreadyClaimed)
    );
    assert_eq!(ctx.wallet_tracker.claimed_balance, amount);
}

#[test]
fn claim_refusals() {
    let mut ctx = claim_ctx(5);
    ctx.buyer = key(OTHER_BUYER);
    assert_eq!(claim_buyer_lock::handler(&mut ctx, clock(1, 1_800_000_000)), Err(VaultpadError::Unauthorized));
    let mut ctx = claim_ctx(5);
    ctx.buyer_lock.mint = key(42);
    assert_eq!(claim_buyer_lock::handler(&mut ctx, clock(1, 1_800_000_000)), Err(VaultpadError::Unauthorized));
    let mut ctx = claim_ctx(0);
    assert_eq!(claim_buyer_lock::handler(&mut ctx, clock(1, 1_800_000_000)), Err(VaultpadError::LockEmpty));
    let mut ctx = claim_ctx(5);
    ctx.wallet_tracker.claimed_balance = u64::MAX;
    assert_eq!(claim_buyer_lock::handler(&mut ctx, clock(1, 1_800_000_000)), Err(VaultpadError::MathOverflow));
    assert!(!ctx.buyer_lock.claimed);
}

#[test]
fn claim_saturates_locked_balance() {
    let mut ctx = claim_ctx(5);
    ctx.wallet_tracker.locked_balance = 3;
    ctx.wallet_tracker.claimed_balance = 10;
    assert_eq!(claim_buyer_lock::handler(&mut ctx, clock(1, 1_800_000_000)), Ok(5));
    assert_eq!(ctx.wallet_tracker.locked_balance, 0);
    assert_eq!(ctx.wallet_tracker.claimed_balance, 15);
}

#[test]
fn sell_counter_overflow_aborts() {
    let (launch, tracker, tokens) = bought_state();
    let mut ctx = sell_ctx(launch, tracker, tokens);
    ctx.protocol_config.total_volume = u64::MAX;
    assert_eq!(sell::try_handler(&mut ctx, tokens, 0), None);
    assert_eq!(ctx.launch_state.trade_count, 1);
    assert_eq!(sell::try_handler(&mut ctx, 0, 0), Some(Err(VaultpadError::InvalidAmount)));
}

#[test]
fn token_vault_holds_reserve_creator_lock_and_unclaimed_locks() {
    // the vault holds the whole minted supply after the launch
    let mut vault: u64 = 1_000_000_000_000_000;
    let launch = fresh_launch();
    let creator_locked = launch.creator_locked_tokens;
    assert_eq!(vault, launch.real_token_reserves + creator_locked);

    // a buy moves no token: the reserve drops by the new lock's amount
    let mut ctx = buy_ctx(launch, BUYER);
    let lock = buy::handler(&mut ctx, clock(1000, 1_700_000_000), 10_000_000, 0).unwrap().buyer_lock;
    assert_eq!(vault, ctx.launch_state.real_token_reserves + creator_locked + lock.amount);
    assert_eq!(ctx.wallet_tracker.locked_balance, lock.amount);
    assert_eq!(ctx.wallet_tracker.total_purchased, lock.amount);

    // a claim moves the lock's amount out of the vault
    let mut claim = ClaimBuyerLock {
        launch_state: ctx.launch_state,
        buyer_lock: lock,
        wallet_tracker: ctx.wallet_tracker,
        buyer: key(BUYER),
    };
    let claimed = claim_buyer_lock::handler(&mut claim, clock(2000, 1_700_010_000)).unwrap();
    vault -= claimed;
    assert_eq!(vault, claim.launch_state.real_token_reserves + creator_locked);
    assert_eq!(claim.wallet_tracker.locked_balance, 0);

    // a sell moves the sold tokens back into the vault and the reserve
    let mut sell = sell_ctx(claim.launch_state, claim.wallet_tracker, claimed);
    let r = sell::handler(&mut sell, claimed, 0).unwrap();
    vault += r.tokens_in;
    assert_eq!(vault, sell.launch_state.real_token_reserves + creator_locked);
    // the SOL vault received 9_800_000 on the buy and paid the whole gross out
    assert_eq!(r.net_sol + r.platform_fee + r.creator_fee, 9_800_000);
    assert_eq!(sell.launch_state.real_sol_reserves, 0);
}
