//! Floor division on `i64`, matching the mathematical `/` of specifications.

use vstd::prelude::*;
use vstd::arithmetic::div_mod::{
    lemma_div_nonincreasing, lemma_div_pos_is_pos, lemma_fundamental_div_mod, lemma_mod_bound,
};

verus! {

/// Bounds of the mathematical quotient for a positive divisor: it never
/// grows in magnitude and keeps the sign of the dividend.
pub proof fn lemma_div_floor_bounds(n: int, d: int)
    requires
        0 < d,
    ensures
        n >= 0 ==> 0 <= n / d <= n,
        n < 0 ==> n <= n / d <= 0,
{
    if n >= 0 {
        lemma_div_pos_is_pos(n, d);
        lemma_div_nonincreasing(n, d);
    } else {
        lemma_fundamental_div_mod(n, d);
        lemma_mod_bound(n, d);
        let q = n / d;
        let r = n % d;
        assert(n <= q <= 0) by (nonlinear_arith)
            requires
                n == d * q + r,
                0 <= r < d,
                n < 0,
                1 <= d,
        ;
    }
}

/// A product of two magnitude-bounded factors is magnitude-bounded by the
/// product of the bounds.
pub proof fn lemma_abs_mul_bound(a: int, ab: int, b: int, bb: int)
    requires
        -ab <= a <= ab,
        -bb <= b <= bb,
        0 <= ab,
        0 <= bb,
    ensures
        -(ab * bb) <= a * b <= ab * bb,
{
    assert(-(ab * bb) <= a * b <= ab * bb) by (nonlinear_arith)
        requires
            -ab <= a <= ab,
            -bb <= b <= bb,
            0 <= ab,
            0 <= bb,
    ;
}

/// Quotient rounded towards negative infinity, so that the result equals the
/// mathematical `num / den` of specification arithmetic.
pub fn div_floor(num: i64, den: i64) -> (q: i64)
    requires
        0 < den,
    ensures
        q == num as int / den as int,
        num >= 0 ==> 0 <= q <= num,
        num < 0 ==> num <= q <= 0,
{
    proof {
        lemma_div_floor_bounds(num as int, den as int);
    }
    match num.checked_div_euclid(den) {
        Some(q) => q,
        None => {
            proof {
                assert(false);
            }
            0
        },
    }
}

} // verus!
