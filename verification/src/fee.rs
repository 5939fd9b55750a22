//! Seeding-fee computation: the portion of the quote reserve withheld before
//! the reserves are handed to the external pool.

use vstd::prelude::*;
use vstd::arithmetic::div_mod::lemma_div_is_ordered;
use vstd::arithmetic::div_mod::lemma_div_multiples_vanish;
use vstd::arithmetic::mul::lemma_mul_inequality;
use vstd::arithmetic::mul::lemma_mul_upper_bound;

verus! {

/// Fee rates are expressed in basis points: parts in ten thousand.
pub const BPS_DENOMINATOR: u16 = 10000;

/// The seeding fee owed on `reserve` at a rate of `fee_bps` basis points:
/// `reserve * fee_bps / 10000`, rounded down.
pub open spec fn spec_seeding_fee(reserve: int, fee_bps: int) -> int {
    reserve * fee_bps / 10000
}

/// Computes the seeding fee withheld from `reserve` at `fee_bps` basis
/// points, using the full 128-bit width for the intermediate product.
pub fn seeding_fee(reserve: u128, fee_bps: u16) -> (fee: u128)
    requires
        reserve * fee_bps <= u128::MAX,
    ensures
        fee == spec_seeding_fee(reserve as int, fee_bps as int),
{
    (reserve * (fee_bps as u128)) / (BPS_DENOMINATOR as u128)
}

/// The fee never exceeds the reserve it is taken from, and is never
/// negative, for any rate of at most ten thousand basis points.
pub proof fn lemma_seeding_fee_bound(reserve: int, fee_bps: int)
    requires
        0 <= reserve,
        0 <= fee_bps <= 10000,
    ensures
        0 <= spec_seeding_fee(reserve, fee_bps) <= reserve,
{
    lemma_mul_upper_bound(reserve, reserve, fee_bps, 10000);
    lemma_mul_inequality(0, reserve, fee_bps);
    lemma_div_is_ordered(0, reserve * fee_bps, 10000);
    lemma_div_is_ordered(reserve * fee_bps, reserve * 10000, 10000);
    lemma_div_multiples_vanish(reserve, 10000);
    assert(reserve * 10000 == 10000 * reserve) by (nonlinear_arith);
}

/// The fee is monotonic non-decreasing in the reserve and in the rate.
pub proof fn lemma_seeding_fee_monotonic(r1: int, b1: int, r2: int, b2: int)
    requires
        0 <= r1 <= r2,
        0 <= b1 <= b2,
    ensures
        spec_seeding_fee(r1, b1) <= spec_seeding_fee(r2, b2),
{
    lemma_mul_upper_bound(r1, r2, b1, b2);
    lemma_div_is_ordered(r1 * b1, r2 * b2, 10000);
}

} // verus!
