use vstd::prelude::*;
use vstd::arithmetic::div_mod::{
    lemma_div_is_ordered_by_denominator,
    lemma_div_by_multiple,
    lemma_div_pos_is_pos,
};
use vstd::arithmetic::mul::lemma_mul_is_commutative;
use crate::constants::MAX_WALLET_BPS;
use crate::errors::VaultpadError;
use crate::pubkey::Pubkey;

verus! {

/// Global config of the protocol.
#[derive(Clone, Copy, Debug, PartialEq, Eq)]
pub struct ProtocolConfig {
    pub authority: Pubkey,
    pub platform_wallet: Pubkey,
    pub platform_fee_bps: u16,
    pub creator_fee_bps: u16,
    pub launch_cost: u64,
    pub total_launches: u64,
    pub total_volume: u64,
    pub total_fees_collected: u64,
    pub bump: u8,
    pub _reserved: [u8; 64],
}

/// Per-launch state: metadata, the constant-product curve, the creator lock,
/// the charity wallet and the trading statistics.
#[derive(Debug, PartialEq, Eq)]
pub struct LaunchState {
    pub mint: Pubkey,
    pub creator: Pubkey,
    pub name: String,
    pub ticker: String,
    pub uri: String,
    pub category: u8,
    pub fee_redirect_type: u8,
    pub fee_redirect_handle: String,
    // ─── Bonding curve (xy=k) ───────────────────────────────
    pub virtual_sol_reserves: u64,
    pub virtual_token_reserves: u64,
    pub real_sol_reserves: u64,
    pub real_token_reserves: u64,
    pub graduated: bool,
    /// Total supply in base units (for max wallet calc)
    pub total_supply: u64,
    // ─── Creator lock ───────────────────────────────────────
    pub creator_lock_unlock_time: i64,
    pub creator_lock_claimed: bool,
    pub creator_locked_tokens: u64,
    // ─── Charity (cause only) ───────────────────────────────
    pub charity_wallet: Pubkey,
    pub charity_authority: Pubkey,
    // ─── Stats ──────────────────────────────────────────────
    pub volume: u64,
    pub fees_generated: u64,
    pub trade_count: u64,
    pub total_locks_created: u64,
    pub penalty_locks_issued: u64,
    pub created_at: i64,
    /// Last slot that had a buy (for same-block detection)
    pub last_buy_slot: u64,
    /// Number of unique buyers in `last_buy_slot`
    pub buys_in_current_slot: u8,
    /// Id of the first lock issued in `last_buy_slot`
    pub slot_first_lock_id: u64,
    /// The wallet that bought first in `last_buy_slot`
    pub slot_first_buyer: Pubkey,
    pub bump: u8,
    pub sol_vault_bump: u8,
    pub _reserved: [u8; 32],
}

/// Per-buyer lock escrow: the tokens of one buy, claimable after `unlock_time`.
#[derive(Clone, Copy, Debug, PartialEq, Eq)]
pub struct BuyerLock {
    pub mint: Pubkey,
    pub buyer: Pubkey,
    pub lock_id: u64,
    pub amount: u64,
    pub unlock_time: i64,
    pub claimed: bool,
    pub created_at: i64,
    /// Whether this lock was issued as a penalty (same-block or same-funder)
    pub is_penalty: bool,
    pub bump: u8,
}

/// Per-wallet holdings and funder for one launch.
#[derive(Clone, Copy, Debug, PartialEq, Eq)]
pub struct WalletTracker {
    pub mint: Pubkey,
    pub wallet: Pubkey,
    /// Total tokens this wallet has purchased (across all locks, claimed or not)
    pub total_purchased: u64,
    /// Total tokens currently in active (unclaimed) locks
    pub locked_balance: u64,
    /// Total tokens claimed (in wallet)
    pub claimed_balance: u64,
    /// The account that funded this wallet, recorded on its first buy.
    pub funder: Pubkey,
    /// Whether this wallet has been flagged for penalty locks
    pub flagged: bool,
    /// Number of buys
    pub buy_count: u32,
    /// Slot of this wallet's latest buy (meaningful once `buy_count > 0`)
    pub last_buy_slot: u64,
    pub bump: u8,
}

/// The part of the cluster clock that the instructions read.
#[derive(Clone, Copy, Debug, PartialEq, Eq)]
pub struct Clock {
    pub slot: u64,
    pub unix_timestamp: i64,
}

/// What a constant-product curve with reserves `(x, y)` pays out in `y`
/// for `dx` of `x`, rounded down in the pool's favour, then capped at `cap`
/// (the reserve that actually exists).
pub open spec fn curve_out(x: int, y: int, dx: int, cap: int) -> int {
    let out: int = y - (x * y) / (x + dx);
    if out < cap { out } else { cap }
}

/// The cap on what one wallet may ever buy: `total_supply * 400 / 10_000`.
pub open spec fn spec_max_wallet_tokens(total_supply: int) -> int {
    total_supply * (MAX_WALLET_BPS as int) / 10_000
}

/// `a * b / (a + c)` never exceeds `b`.
pub proof fn lemma_curve_quotient_bounded(a: int, b: int, c: int)
    requires
        0 <= a,
        0 <= b,
        0 <= c,
        0 < a + c,
    ensures
        0 <= (a * b) / (a + c) <= b,
{
    assert(0 <= a * b) by (nonlinear_arith)
        requires
            0 <= a,
            0 <= b,
    ;
    lemma_div_pos_is_pos(a * b, a + c);
    if a > 0 {
        lemma_div_is_ordered_by_denominator(a * b, a, a + c);
        lemma_mul_is_commutative(a, b);
        lemma_div_by_multiple(b, a);
    } else {
        assert(a * b == 0);
    }
}

proof fn lemma_u64_product_fits(a: u64, b: u64)
    ensures
        (a as int) * (b as int) <= u128::MAX,
{
    assert((a as int) * (b as int) <= u128::MAX) by (nonlinear_arith)
        requires
            0 <= a <= u64::MAX,
            0 <= b <= u64::MAX,
    ;
}

impl LaunchState {
    /// Tokens that `sol_in` lamports buy from the curve.
    ///
    /// Fails with `MathOverflow` exactly when the curve holds no virtual SOL
    /// and nothing is paid in (the quotient would divide by zero).
    pub fn calculate_buy(&self, sol_in: u64) -> (r: Result<u64, VaultpadError>)
        ensures
            r is Err <==> (self.virtual_sol_reserves == 0 && sol_in == 0),
            r is Err ==> r->Err_0 == VaultpadError::MathOverflow,
            r is Ok ==> r->Ok_0 == curve_out(
                self.virtual_sol_reserves as int,
                self.virtual_token_reserves as int,
                sol_in as int,
                self.real_token_reserves as int,
            ),
            r is Ok ==> r->Ok_0 <= self.real_token_reserves,
            r is Ok ==> r->Ok_0 <= self.virtual_token_reserves,
    {
        let vs: u128 = self.virtual_sol_reserves as u128;
        let vt: u128 = self.virtual_token_reserves as u128;
        proof {
            lemma_u64_product_fits(self.virtual_sol_reserves, self.virtual_token_reserves);
        }
        let k: u128 = match vs.checked_mul(vt) {
            Some(k) => k,
            None => return Err(VaultpadError::MathOverflow),
        };
        let new_sol: u128 = match vs.checked_add(sol_in as u128) {
            Some(v) => v,
            None => return Err(VaultpadError::MathOverflow),
        };
        let new_tokens: u128 = match k.checked_div(new_sol) {
            Some(v) => v,
            None => return Err(VaultpadError::MathOverflow),
        };
        proof {
            lemma_curve_quotient_bounded(vs as int, vt as int, sol_in as int);
        }
        let tokens_out: u128 = match vt.checked_sub(new_tokens) {
            Some(v) => v,
            None => return Err(VaultpadError::CurveDepleted),
        };
        let cap: u128 = self.real_token_reserves as u128;
        let out: u128 = if tokens_out < cap { tokens_out } else { cap };
        Ok(out as u64)
    }

    /// Lamports that selling `tokens_in` tokens to the curve pays out.
    ///
    /// Fails with `MathOverflow` exactly when the curve holds no virtual
    /// tokens and nothing is sold (the quotient would divide by zero).
    pub fn calculate_sell(&self, tokens_in: u64) -> (r: Result<u64, VaultpadError>)
        ensures
            r is Err <==> (self.virtual_token_reserves == 0 && tokens_in == 0),
            r is Err ==> r->Err_0 == VaultpadError::MathOverflow,
            r is Ok ==> r->Ok_0 == curve_out(
                self.virtual_token_reserves as int,
                self.virtual_sol_reserves as int,
                tokens_in as int,
                self.real_sol_reserves as int,
            ),
            r is Ok ==> r->Ok_0 <= self.real_sol_reserves,
            r is Ok ==> r->Ok_0 <= self.virtual_sol_reserves,
    {
        let vs: u128 = self.virtual_sol_reserves as u128;
        let vt: u128 = self.virtual_token_reserves as u128;
        proof {
            lemma_u64_product_fits(self.virtual_sol_reserves, self.virtual_token_reserves);
        }
        let k: u128 = match vs.checked_mul(vt) {
            Some(k) => k,
            None => return Err(VaultpadError::MathOverflow),
        };
        let new_tokens: u128 = match vt.checked_add(tokens_in as u128) {
            Some(v) => v,
            None => return Err(VaultpadError::MathOverflow),
        };
        let new_sol: u128 = match k.checked_div(new_tokens) {
            Some(v) => v,
            None => return Err(VaultpadError::MathOverflow),
        };
        proof {
            lemma_mul_is_commutative(vs as int, vt as int);
            lemma_curve_quotient_bounded(vt as int, vs as int, tokens_in as int);
        }
        let sol_out: u128 = match vs.checked_sub(new_sol) {
            Some(v) => v,
            None => return Err(VaultpadError::CurveDepleted),
        };
        let cap: u128 = self.real_sol_reserves as u128;
        let out: u128 = if sol_out < cap { sol_out } else { cap };
        Ok(out as u64)
    }

    /// Max tokens any single wallet can hold (4% of total supply).
    pub fn max_wallet_tokens(&self) -> (r: u64)
        ensures
            r == spec_max_wallet_tokens(self.total_supply as int),
    {
        let supply: u128 = self.total_supply as u128;
        let bps: u128 = MAX_WALLET_BPS as u128;
        assert(bps == 400);
        assert(supply * bps <= u128::MAX);
        let product: u128 = supply.checked_mul(bps).unwrap();
        let quotient: u128 = product.checked_div(10_000).unwrap();
        assert(quotient <= supply);
        quotient as u64
    }
}

} // verus!
