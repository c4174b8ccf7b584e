//! Fixed-point scalar arithmetic.
//!
//! Every scalar in this crate is an `i128` counting units of `1/FX_ONE`, so
//! the real number `v` is stored as the integer `v * FX_ONE` (rounded down).
//! The operations here are exact integer computations whose contracts are
//! stated with the spec functions `fxm`, `fxd`, `isqrt_s` and `fxpow_s`.

use vstd::arithmetic::div_mod::{
    lemma_div_is_ordered, lemma_div_multiples_vanish, lemma_div_nonincreasing,
    lemma_div_pos_is_pos, lemma_fundamental_div_mod, lemma_fundamental_div_mod_converse_div,
};
use vstd::prelude::*;

verus! {

/// The scaled representation of the real number 1.0 (2^28).
pub const FX_ONE: i128 = 268435456;

/// Comparison tolerance: about 1e-5 in real terms.
pub const EPSILON: i128 = 2684;

/// Largest argument magnitude accepted by `fx_mul` (2^62).
pub const FX_MUL_MAX: i128 = 4611686018427387904;

/// Largest dividend magnitude accepted by `fx_div` (2^98).
pub const FX_DIV_MAX: i128 = 316912650057057350374175801344;

/// Bound under which products of two accepted factors stay representable (2^126).
pub const FX_PROD_MAX: i128 = 85070591730234615865843651857942052864;

/// Bound on any `fx_mul` result (2^97).
pub const FX_VAL_MAX: i128 = 158456325028528675187087900672;

/// Fixed-point product: the real product of `a` and `b`, rounded down.
pub open spec fn fxm(a: int, b: int) -> int {
    (a * b) / (FX_ONE as int)
}

/// Fixed-point quotient: the real quotient of `a` by `b`, rounded down.
/// Unspecified for `b == 0`.
pub open spec fn fxd(a: int, b: int) -> int {
    if b > 0 {
        (a * FX_ONE) / b
    } else {
        ((-a) * FX_ONE) / (-b)
    }
}

/// `r` is the integer square root of `n` rounded down.
pub open spec fn is_isqrt(n: int, r: int) -> bool {
    &&& 0 <= r
    &&& r * r <= n
    &&& n < (r + 1) * (r + 1)
}

/// The integer square root of `n`, rounded down.
pub open spec fn isqrt_s(n: int) -> int {
    choose|r: int| is_isqrt(n, r)
}

/// Fixed-point power with a plain integer exponent.
pub open spec fn fxpow_s(b: int, n: nat) -> int
    decreases n,
{
    if n == 0 {
        FX_ONE as int
    } else {
        fxm(fxpow_s(b, (n - 1) as nat), b)
    }
}

/// Every non-negative integer has an integer square root.
pub proof fn lemma_isqrt_exists(n: int)
    requires
        0 <= n,
    ensures
        is_isqrt(n, isqrt_s(n)),
    decreases n,
{
    if n == 0 {
        assert(is_isqrt(0, 0));
    } else {
        lemma_isqrt_exists(n - 1);
        let r = isqrt_s(n - 1);
        if n < (r + 1) * (r + 1) {
            assert(is_isqrt(n, r));
        } else {
            assert(n == (r + 1) * (r + 1));
            assert(n < (r + 2) * (r + 2)) by (nonlinear_arith)
                requires
                    n == (r + 1) * (r + 1),
                    r >= 0,
            ;
            assert(is_isqrt(n, r + 1));
        }
    }
}

/// The integer square root is unique.
pub proof fn lemma_isqrt_unique(n: int, r1: int, r2: int)
    requires
        is_isqrt(n, r1),
        is_isqrt(n, r2),
    ensures
        r1 == r2,
{
    if r1 < r2 {
        assert((r1 + 1) * (r1 + 1) <= r2 * r2) by (nonlinear_arith)
            requires
                0 <= r1,
                r1 + 1 <= r2,
        ;
    }
    if r2 < r1 {
        assert((r2 + 1) * (r2 + 1) <= r1 * r1) by (nonlinear_arith)
            requires
                0 <= r2,
                r2 + 1 <= r1,
        ;
    }
}

/// A product bounded by `FX_ONE * c` has a fixed-point product bounded by `c`.
pub proof fn lemma_fxm_in(a: int, b: int, c: int)
    requires
        0 <= c,
        -(FX_ONE * c) <= a * b <= FX_ONE * c,
    ensures
        -c <= fxm(a, b) <= c,
{
    let s = FX_ONE as int;
    lemma_div_is_ordered(a * b, s * c, s);
    lemma_div_is_ordered(s * (-c), a * b, s);
    lemma_div_multiples_vanish(c, s);
    lemma_div_multiples_vanish(-c, s);
    assert(s * c == FX_ONE * c);
    assert(s * (-c) == -(FX_ONE * c));
}

/// Fixed-point division by a positive divisor preserves order of dividends.
pub proof fn lemma_fxd_ordered(a1: int, a2: int, b: int)
    requires
        a1 <= a2,
        b > 0,
    ensures
        fxd(a1, b) <= fxd(a2, b),
{
    assert(a1 * FX_ONE <= a2 * FX_ONE);
    lemma_div_is_ordered(a1 * FX_ONE, a2 * FX_ONE, b);
}

/// Magnitude bounds for a fixed-point product, from bounds on the factors.
pub proof fn lemma_fxm_mag(a: int, b: int, am: int, bm: int, c: int)
    requires
        -am <= a <= am,
        -bm <= b <= bm,
        0 <= am,
        0 <= bm,
        0 <= c,
        am * bm <= FX_ONE * c,
    ensures
        -c <= fxm(a, b) <= c,
{
    assert(-(FX_ONE * c) <= a * b <= FX_ONE * c) by (nonlinear_arith)
        requires
            -am <= a <= am,
            -bm <= b <= bm,
            0 <= am,
            0 <= bm,
            am * bm <= FX_ONE * c,
    ;
    lemma_fxm_in(a, b, c);
}

/// Floor division of `n` by a positive divisor `d`.
fn div_floor(n: i128, d: i128) -> (q: i128)
    requires
        0 < d <= FX_PROD_MAX,
        -FX_PROD_MAX <= n <= FX_PROD_MAX,
    ensures
        q == n as int / d as int,
{
    if n >= 0 {
        let nm: u128 = n as u128;
        let dm: u128 = d as u128;
        let q0: u128 = nm / dm;
        proof {
            lemma_div_pos_is_pos(nm as int, dm as int);
            lemma_div_nonincreasing(nm as int, dm as int);
        }
        q0 as i128
    } else {
        let nm: u128 = (-n) as u128;
        let dm: u128 = d as u128;
        let q0: u128 = nm / dm;
        let r0: u128 = nm % dm;
        proof {
            lemma_fundamental_div_mod(nm as int, dm as int);
            lemma_div_pos_is_pos(nm as int, dm as int);
            lemma_div_nonincreasing(nm as int, dm as int);
        }
        if r0 == 0 {
            proof {
                assert(n == (-(q0 as int)) * (d as int) + 0) by (nonlinear_arith)
                    requires
                        nm == q0 * dm + r0,
                        r0 == 0,
                        nm == -(n as int),
                        dm == d as int,
                ;
                lemma_fundamental_div_mod_converse_div(n as int, d as int, -(q0 as int), 0);
            }
            -(q0 as i128)
        } else {
            proof {
                assert(n == (-(q0 as int) - 1) * (d as int) + (dm - r0)) by (nonlinear_arith)
                    requires
                        nm == q0 * dm + r0,
                        nm == -(n as int),
                        dm == d as int,
                ;
                lemma_fundamental_div_mod_converse_div(
                    n as int,
                    d as int,
                    -(q0 as int) - 1,
                    dm as int - r0 as int,
                );
            }
            -(q0 as i128) - 1
        }
    }
}

/// Fixed-point multiplication: returns `fxm(a, b)`.
pub fn fx_mul(a: i128, b: i128) -> (r: i128)
    requires
        -FX_MUL_MAX <= a <= FX_MUL_MAX,
        -FX_MUL_MAX <= b <= FX_MUL_MAX,
    ensures
        r == fxm(a as int, b as int),
        -FX_VAL_MAX <= r <= FX_VAL_MAX,
{
    proof {
        assert(-(FX_ONE * FX_VAL_MAX) <= a * b <= FX_ONE * FX_VAL_MAX) by (nonlinear_arith)
            requires
                -FX_MUL_MAX <= a <= FX_MUL_MAX,
                -FX_MUL_MAX <= b <= FX_MUL_MAX,
                FX_MUL_MAX * FX_MUL_MAX <= FX_ONE * FX_VAL_MAX,
        ;
        assert(FX_ONE * FX_VAL_MAX <= FX_PROD_MAX);
        lemma_fxm_in(a as int, b as int, FX_VAL_MAX as int);
    }
    let p: i128 = a * b;
    div_floor(p, FX_ONE)
}

/// Fixed-point division: returns `fxd(a, b)`.
pub fn fx_div(a: i128, b: i128) -> (r: i128)
    requires
        b != 0,
        -FX_DIV_MAX <= a <= FX_DIV_MAX,
        -FX_PROD_MAX <= b <= FX_PROD_MAX,
    ensures
        r == fxd(a as int, b as int),
{
    let n: i128 = a * FX_ONE;
    if b > 0 {
        div_floor(n, b)
    } else {
        proof {
            assert((-(a as int)) * (FX_ONE as int) == -(a as int * FX_ONE as int));
        }
        div_floor(-n, -b)
    }
}

/// Integer square root, rounded down.
pub fn fx_sqrt(n: i128) -> (r: i128)
    requires
        0 <= n < FX_PROD_MAX,
    ensures
        r == isqrt_s(n as int),
        is_isqrt(n as int, r as int),
        0 <= r,
{
    let nm: u128 = n as u128;
    let mut lo: u128 = 0;
    let mut hi: u128 = 9223372036854775808;
    proof {
        assert(nm < hi * hi) by (nonlinear_arith)
            requires
                nm < 85070591730234615865843651857942052864u128,
                hi == 9223372036854775808u128,
        ;
    }
    while lo + 1 < hi
        invariant
            lo < hi,
            hi <= 9223372036854775808u128,
            lo * lo <= nm,
            nm < hi * hi,
        decreases hi - lo,
    {
        let mid: u128 = lo + (hi - lo) / 2;
        proof {
            assert(lo < mid < hi);
            assert(mid * mid <= 85070591730234615865843651857942052864u128) by (nonlinear_arith)
                requires
                    mid < 9223372036854775808u128,
            ;
        }
        if mid * mid <= nm {
            lo = mid;
        } else {
            hi = mid;
        }
    }
    proof {
        assert(hi == lo + 1);
        assert(is_isqrt(n as int, lo as int));
        let w = choose|r: int| is_isqrt(n as int, r);
        lemma_isqrt_unique(n as int, w, lo as int);
    }
    lo as i128
}

/// A fixed-point product of two values in `[0, 1]` stays in `[0, 1]`.
pub proof fn lemma_fxm_unit(a: int, b: int)
    requires
        0 <= a <= FX_ONE,
        0 <= b <= FX_ONE,
    ensures
        0 <= fxm(a, b) <= FX_ONE,
{
    assert(0 <= a * b <= FX_ONE * (FX_ONE as int)) by (nonlinear_arith)
        requires
            0 <= a <= FX_ONE,
            0 <= b <= FX_ONE,
    ;
    lemma_fxm_in(a, b, FX_ONE as int);
}

/// Fixed-point power: `b` raised to the plain integer exponent `n`.
pub fn fx_pow(b: i128, n: u64) -> (r: i128)
    requires
        0 <= b <= FX_ONE,
    ensures
        r == fxpow_s(b as int, n as nat),
        0 <= r <= FX_ONE,
{
    let mut acc: i128 = FX_ONE;
    let mut i: u64 = 0;
    while i < n
        invariant
            i <= n,
            0 <= b <= FX_ONE,
            0 <= acc <= FX_ONE,
            acc == fxpow_s(b as int, i as nat),
        decreases n - i,
    {
        proof {
            lemma_fxm_unit(acc as int, b as int);
        }
        acc = fx_mul(acc, b);
        i = i + 1;
    }
    acc
}

} // verus!
