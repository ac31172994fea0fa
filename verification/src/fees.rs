//! Platform-fee arithmetic: the fee of a sale is `floor(price * bps / 10000)`
//! basis points of the price, computed without overflowing `u128`.

use vstd::arithmetic::div_mod::{lemma_div_is_ordered, lemma_hoist_over_denominator};
use vstd::arithmetic::mul::lemma_mul_inequality;
use vstd::prelude::*;

verus! {

/// Basis points denominator: 10000 basis points make the whole.
pub const BPS_DENOMINATOR: u64 = 10000;

/// The platform's cut of a sale at `price` with a fee of `bps` basis points.
pub open spec fn spec_platform_fee(price: u128, bps: u64) -> int {
    (price * bps) / (BPS_DENOMINATOR as int)
}

/// The fee never exceeds the price it is taken from.
pub proof fn lemma_platform_fee_le_price(price: u128, bps: u64)
    requires
        bps <= BPS_DENOMINATOR,
    ensures
        0 <= spec_platform_fee(price, bps) <= price,
{
    lemma_mul_inequality(bps as int, BPS_DENOMINATOR as int, price as int);
    lemma_div_is_ordered(price * bps, price * BPS_DENOMINATOR, BPS_DENOMINATOR as int);
    assert(price * BPS_DENOMINATOR / (BPS_DENOMINATOR as int) == price) by (nonlinear_arith);
    assert(price * bps >= 0) by (nonlinear_arith);
}

/// Computes `floor(price * bps / 10000)` by splitting the price at the
/// denominator, so that no intermediate product leaves `u128`.
pub fn platform_fee(price: u128, bps: u64) -> (fee: u128)
    requires
        bps <= BPS_DENOMINATOR,
    ensures
        fee == spec_platform_fee(price, bps),
        fee <= price,
{
    let q = price / (BPS_DENOMINATOR as u128);
    let r = price % (BPS_DENOMINATOR as u128);
    proof {
        lemma_platform_fee_le_price(price, bps);
        // q * bps <= q * 10000 <= price, so the first product fits.
        lemma_mul_inequality(bps as int, BPS_DENOMINATOR as int, q as int);
        assert(q * (BPS_DENOMINATOR as int) <= price) by (nonlinear_arith)
            requires
                q == price / (BPS_DENOMINATOR as u128),
        ;
        // r < 10000 and bps <= 10000 keep the second product small.
        assert(r * bps < 100000000) by (nonlinear_arith)
            requires
                r < 10000 && bps <= 10000,
        ;
        // price * bps == 10000 * (q * bps) + r * bps, so dividing by 10000
        // leaves q * bps + (r * bps) / 10000.
        assert(price * bps == (q * bps) * (BPS_DENOMINATOR as int) + r * bps) by (nonlinear_arith)
            requires
                price == (BPS_DENOMINATOR as int) * q + r,
        ;
        lemma_hoist_over_denominator(r as int * bps as int, q as int * bps as int, 10000nat);
        // The two summands stay within the final bound, so the addition fits.
        assert((r * bps) / (BPS_DENOMINATOR as int) <= r) by {
            lemma_mul_inequality(bps as int, BPS_DENOMINATOR as int, r as int);
            lemma_div_is_ordered(r * bps, r * BPS_DENOMINATOR, BPS_DENOMINATOR as int);
            assert(r * BPS_DENOMINATOR / (BPS_DENOMINATOR as int) == r) by (nonlinear_arith);
        };
        assert((r * bps) / (BPS_DENOMINATOR as int) >= 0) by (nonlinear_arith)
            requires
                r >= 0 && bps >= 0,
        ;
    }
    q * (bps as u128) + (r * (bps as u128)) / (BPS_DENOMINATOR as u128)
}

} // verus!
