//! Liquidity-token burn amount for a freshly seeded constant-product pool:
//! the minted liquidity is the floor square root of the product of the two
//! initial deposits, and all of it but a small locked remainder is burned.

use vstd::prelude::*;
use integer_sqrt::IntegerSquareRoot;
use vstd::arithmetic::mul::lemma_mul_upper_bound;

verus! {

/// Liquidity tokens left locked with the pool creator when the rest are
/// burned.
pub const LOCK_LP_AMOUNT: u64 = 100;

/// `r` is the square root of `n`, rounded down.
pub open spec fn is_sqrt_floor(n: int, r: int) -> bool {
    0 <= r && r * r <= n && n < (r + 1) * (r + 1)
}

/// Relies on `integer_sqrt::IntegerSquareRoot::integer_sqrt`: the floor of
/// the square root, total on unsigned inputs.
#[verifier::external_body]
fn u128_integer_sqrt(n: u128) -> (r: u128)
    ensures
        is_sqrt_floor(n as int, r as int),
{
    n.integer_sqrt()
}

/// The floor square root of a number is unique.
pub proof fn lemma_sqrt_floor_unique(n: int, r1: int, r2: int)
    requires
        is_sqrt_floor(n, r1),
        is_sqrt_floor(n, r2),
    ensures
        r1 == r2,
{
    if r1 < r2 {
        assert((r1 + 1) * (r1 + 1) <= r2 * r2) by (nonlinear_arith)
            requires
                0 <= r1,
                r1 < r2,
        ;
    }
    if r2 < r1 {
        assert((r2 + 1) * (r2 + 1) <= r1 * r1) by (nonlinear_arith)
            requires
                0 <= r2,
                r2 < r1,
        ;
    }
}

/// The amount of liquidity tokens to burn after seeding a constant-product
/// pool with `init_amount_0` and `init_amount_1`: the minted liquidity (the
/// floor square root of the product of the deposits) less the locked
/// remainder, or `None` when fewer tokens were minted than stay locked.
pub fn lp_burn_amount(init_amount_0: u64, init_amount_1: u64) -> (r: Option<u64>)
    ensures
        match r {
            Some(burn) => is_sqrt_floor(
                init_amount_0 * init_amount_1,
                burn + LOCK_LP_AMOUNT,
            ),
            None => forall|s: int|
                #[trigger] is_sqrt_floor(init_amount_0 * init_amount_1, s) ==> s
                    < LOCK_LP_AMOUNT,
        },
{
    proof {
        lemma_mul_upper_bound(
            init_amount_0 as int,
            u64::MAX as int,
            init_amount_1 as int,
            u64::MAX as int,
        );
    }
    let product = (init_amount_0 as u128) * (init_amount_1 as u128);
    let liquidity_wide = u128_integer_sqrt(product);
    proof {
        assert(liquidity_wide <= u64::MAX) by (nonlinear_arith)
            requires
                0 <= liquidity_wide,
                (liquidity_wide as int) * (liquidity_wide as int) <= product as int,
                product as int <= (u64::MAX as int) * (u64::MAX as int),
        ;
    }
    let liquidity = liquidity_wide as u64;
    if liquidity < LOCK_LP_AMOUNT {
        proof {
            assert forall|s: int| #[trigger]
                is_sqrt_floor(init_amount_0 * init_amount_1, s) implies s < LOCK_LP_AMOUNT by {
                lemma_sqrt_floor_unique(init_amount_0 * init_amount_1, s, liquidity as int);
            }
        }
        None
    } else {
        Some(liquidity - LOCK_LP_AMOUNT)
    }
}

} // verus!
