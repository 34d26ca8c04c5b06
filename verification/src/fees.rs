//! Trading fees, in basis points of a lamport amount.
use vstd::prelude::*;

verus! {

/// `amount * bps / 10_000`, rounded down and cast to `u64`.
pub open spec fn spec_fee(amount: u64, bps: u16) -> u64 {
    ((amount as int * bps as int) / 10_000) as u64
}

/// A fee of `bps` basis points on `amount`.
pub fn fee_of(amount: u64, bps: u16) -> (f: u64)
    ensures
        f == spec_fee(amount, bps),
        bps <= 10_000 ==> f <= amount,
{
    let a: u128 = amount as u128;
    let b: u128 = bps as u128;
    assert(a * b <= u128::MAX) by (nonlinear_arith)
        requires
            a <= u64::MAX,
            b <= u16::MAX,
    ;
    let product: u128 = a.checked_mul(b).unwrap();
    let quotient: u128 = product.checked_div(10_000).unwrap();
    proof {
        if bps <= 10_000 {
            assert(a * b <= a * 10_000) by (nonlinear_arith)
                requires
                    b <= 10_000,
            ;
            assert((a * b) / 10_000 <= a) by (nonlinear_arith)
                requires
                    a * b <= a * 10_000,
            ;
        }
    }
    quotient as u64
}

} // verus!
