//! Homogeneous four-component tuples.
//!
//! A tuple with `w == FX_ONE` is a point; one with `w == 0` is a free vector.
//! All components are fixed-point scalars (see `fixed`).

use crate::fixed::{
    fx_div, fx_mul, fx_sqrt, fxd, fxm, is_isqrt, isqrt_s, lemma_fxm_in, lemma_isqrt_exists,
    EPSILON, FX_DIV_MAX, FX_MUL_MAX, FX_ONE, FX_PROD_MAX,
};
use crate::utils::{approx_eq_s, Compare};
use vstd::arithmetic::div_mod::{
    lemma_div_is_ordered, lemma_div_multiples_vanish, lemma_fundamental_div_mod,
    lemma_mod_division_less_than_divisor,
};
use vstd::prelude::*;

verus! {

/// Largest component magnitude accepted by `dot`, `cross` and `reflect`.
pub const DOT_MAX: i128 = 12000000000000;

/// Bound on a dot product of accepted arguments (2^61).
pub const SQ_MAX: i128 = 2305843009213693952;

/// Per-term bound used when summing fixed-point products (2^59).
const TERM_MAX: i128 = 576460752303423488;

#[derive(Clone, Copy, Debug, PartialEq, Eq, Structural)]
pub struct Tuple {
    pub x: i128,
    pub y: i128,
    pub z: i128,
    pub w: i128,
}

/// Builds a point (w = 1).
pub fn point(x: i128, y: i128, z: i128) -> (r: Tuple)
    ensures
        r == (Tuple { x, y, z, w: FX_ONE }),
{
    Tuple { x, y, z, w: FX_ONE }
}

/// Builds a free vector (w = 0).
pub fn vector(x: i128, y: i128, z: i128) -> (r: Tuple)
    ensures
        r == (Tuple { x, y, z, w: 0 }),
{
    Tuple { x, y, z, w: 0 }
}

/// All four components within `b` in magnitude.
pub open spec fn tup_bounded(t: Tuple, b: int) -> bool {
    &&& -b <= t.x <= b
    &&& -b <= t.y <= b
    &&& -b <= t.z <= b
    &&& -b <= t.w <= b
}

/// The four-component dot product.
pub open spec fn dot_s(a: Tuple, b: Tuple) -> int {
    fxm(a.x as int, b.x as int) + fxm(a.y as int, b.y as int) + fxm(a.z as int, b.z as int) + fxm(
        a.w as int,
        b.w as int,
    )
}

/// Sum of the squares of x, y and z, at twice the fixed-point scale.
/// The w component never takes part in a magnitude.
pub open spec fn magsq_s(v: Tuple) -> int {
    v.x * v.x + v.y * v.y + v.z * v.z
}

/// The magnitude of `v` as a fixed-point scalar.
pub open spec fn mag_s(v: Tuple) -> int {
    isqrt_s(magsq_s(v))
}

impl Tuple {
    /// Component-wise sum.
    pub fn add(&self, o: &Tuple) -> (r: Tuple)
        requires
            tup_bounded(*self, FX_DIV_MAX as int),
            tup_bounded(*o, FX_DIV_MAX as int),
        ensures
            r.x == self.x + o.x,
            r.y == self.y + o.y,
            r.z == self.z + o.z,
            r.w == self.w + o.w,
    {
        Tuple { x: self.x + o.x, y: self.y + o.y, z: self.z + o.z, w: self.w + o.w }
    }

    /// Component-wise difference.
    pub fn sub(&self, o: &Tuple) -> (r: Tuple)
        requires
            tup_bounded(*self, FX_DIV_MAX as int),
            tup_bounded(*o, FX_DIV_MAX as int),
        ensures
            r.x == self.x - o.x,
            r.y == self.y - o.y,
            r.z == self.z - o.z,
            r.w == self.w - o.w,
    {
        Tuple { x: self.x - o.x, y: self.y - o.y, z: self.z - o.z, w: self.w - o.w }
    }

    /// Component-wise negation.
    pub fn neg(&self) -> (r: Tuple)
        requires
            tup_bounded(*self, FX_DIV_MAX as int),
        ensures
            r.x == -self.x,
            r.y == -self.y,
            r.z == -self.z,
            r.w == -self.w,
    {
        Tuple { x: -self.x, y: -self.y, z: -self.z, w: -self.w }
    }

    /// Scales every component by the fixed-point scalar `s`.
    pub fn scale(&self, s: i128) -> (r: Tuple)
        requires
            tup_bounded(*self, FX_MUL_MAX as int),
            -FX_MUL_MAX <= s <= FX_MUL_MAX,
        ensures
            r.x == fxm(self.x as int, s as int),
            r.y == fxm(self.y as int, s as int),
            r.z == fxm(self.z as int, s as int),
            r.w == fxm(self.w as int, s as int),
            tup_bounded(r, FX_DIV_MAX as int),
    {
        Tuple {
            x: fx_mul(self.x, s),
            y: fx_mul(self.y, s),
            z: fx_mul(self.z, s),
            w: fx_mul(self.w, s),
        }
    }

    /// Dot product over all four components.
    pub fn dot(&self, o: &Tuple) -> (r: i128)
        requires
            tup_bounded(*self, DOT_MAX as int),
            tup_bounded(*o, DOT_MAX as int),
        ensures
            r == dot_s(*self, *o),
            -SQ_MAX <= r <= SQ_MAX,
    {
        proof {
            assert(-(FX_ONE * TERM_MAX) <= self.x * o.x <= FX_ONE * TERM_MAX && -(FX_ONE
                * TERM_MAX) <= self.y * o.y <= FX_ONE * TERM_MAX && -(FX_ONE * TERM_MAX) <= self.z
                * o.z <= FX_ONE * TERM_MAX && -(FX_ONE * TERM_MAX) <= self.w * o.w <= FX_ONE
                * TERM_MAX) by (nonlinear_arith)
                requires
                    tup_bounded(*self, DOT_MAX as int),
                    tup_bounded(*o, DOT_MAX as int),
                    DOT_MAX * DOT_MAX <= FX_ONE * TERM_MAX,
            ;
            lemma_fxm_in(self.x as int, o.x as int, TERM_MAX as int);
            lemma_fxm_in(self.y as int, o.y as int, TERM_MAX as int);
            lemma_fxm_in(self.z as int, o.z as int, TERM_MAX as int);
            lemma_fxm_in(self.w as int, o.w as int, TERM_MAX as int);
        }
        fx_mul(self.x, o.x) + fx_mul(self.y, o.y) + fx_mul(self.z, o.z) + fx_mul(self.w, o.w)
    }

    /// Cross product; meaningful for free vectors, the result has w = 0.
    pub fn cross(&self, o: &Tuple) -> (r: Tuple)
        requires
            tup_bounded(*self, DOT_MAX as int),
            tup_bounded(*o, DOT_MAX as int),
        ensures
            r.x == fxm(self.y as int, o.z as int) - fxm(self.z as int, o.y as int),
            r.y == fxm(self.z as int, o.x as int) - fxm(self.x as int, o.z as int),
            r.z == fxm(self.x as int, o.y as int) - fxm(self.y as int, o.x as int),
            r.w == 0,
    {
        Tuple {
            x: fx_mul(self.y, o.z) - fx_mul(self.z, o.y),
            y: fx_mul(self.z, o.x) - fx_mul(self.x, o.z),
            z: fx_mul(self.x, o.y) - fx_mul(self.y, o.x),
            w: 0,
        }
    }

    /// Magnitude over x, y and z; the w component is ignored.
    pub fn magnitude(&self) -> (r: i128)
        requires
            -SQ_MAX <= self.x <= SQ_MAX,
            -SQ_MAX <= self.y <= SQ_MAX,
            -SQ_MAX <= self.z <= SQ_MAX,
        ensures
            r == mag_s(*self),
            is_isqrt(magsq_s(*self), r as int),
            0 <= r <= FX_MUL_MAX,
    {
        proof {
            assert(0 <= self.x * self.x <= SQ_MAX * SQ_MAX && 0 <= self.y * self.y <= SQ_MAX
                * SQ_MAX && 0 <= self.z * self.z <= SQ_MAX * SQ_MAX && 0 <= self.x * self.x + self.y
                * self.y + self.z * self.z <= 3 * (SQ_MAX * SQ_MAX)) by (nonlinear_arith)
                requires
                    -SQ_MAX <= self.x <= SQ_MAX,
                    -SQ_MAX <= self.y <= SQ_MAX,
                    -SQ_MAX <= self.z <= SQ_MAX,
                    SQ_MAX * SQ_MAX + SQ_MAX * SQ_MAX + SQ_MAX * SQ_MAX < FX_PROD_MAX,
            ;
            assert(3 * (SQ_MAX * SQ_MAX) < FX_PROD_MAX);
        }
        let n: i128 = self.x * self.x + self.y * self.y + self.z * self.z;
        let r = fx_sqrt(n);
        proof {
            assert(r <= FX_MUL_MAX) by (nonlinear_arith)
                requires
                    0 <= r,
                    r * r <= n,
                    n <= 3 * (SQ_MAX * SQ_MAX),
                    FX_MUL_MAX * FX_MUL_MAX >= 3 * (SQ_MAX * SQ_MAX),
            ;
        }
        r
    }

    /// Scales the tuple to unit length.  The caller must not pass a vector of
    /// zero magnitude: that is a degenerate input, not a recoverable case.
    pub fn normalize(&self) -> (r: Tuple)
        requires
            -SQ_MAX <= self.x <= SQ_MAX,
            -SQ_MAX <= self.y <= SQ_MAX,
            -SQ_MAX <= self.z <= SQ_MAX,
            -SQ_MAX <= self.w <= SQ_MAX,
            magsq_s(*self) >= 1,
        ensures
            r.x == fxd(self.x as int, mag_s(*self)),
            r.y == fxd(self.y as int, mag_s(*self)),
            r.z == fxd(self.z as int, mag_s(*self)),
            r.w == fxd(self.w as int, mag_s(*self)),
            -(FX_ONE + 1) <= r.x <= FX_ONE,
            -(FX_ONE + 1) <= r.y <= FX_ONE,
            -(FX_ONE + 1) <= r.z <= FX_ONE,
            self.w == 0 ==> r.w == 0,
    {
        let m = self.magnitude();
        proof {
            if self.w == 0 {
                vstd::arithmetic::div_mod::lemma_div_of0(m as int);
            }
            if m == 0 {
                assert((m + 1) * (m + 1) == 1);
                assert(false);
            }
            assert(self.x * self.x >= 0 && self.y * self.y >= 0 && self.z * self.z >= 0)
                by (nonlinear_arith);
            lemma_unit_component(self.x as int, m as int, magsq_s(*self), self.x * self.x);
            lemma_unit_component(self.y as int, m as int, magsq_s(*self), self.y * self.y);
            lemma_unit_component(self.z as int, m as int, magsq_s(*self), self.z * self.z);
        }
        Tuple {
            x: fx_div(self.x, m),
            y: fx_div(self.y, m),
            z: fx_div(self.z, m),
            w: fx_div(self.w, m),
        }
    }

    /// Reflects `self` about the normal `n`:
    /// `self - n * 2 * dot(self, n)`.
    pub fn reflect(&self, n: &Tuple) -> (r: Tuple)
        requires
            tup_bounded(*self, DOT_MAX as int),
            tup_bounded(*n, DOT_MAX as int),
        ensures
            r.x == self.x - fxm(n.x as int, 2 * dot_s(*self, *n)),
            r.y == self.y - fxm(n.y as int, 2 * dot_s(*self, *n)),
            r.z == self.z - fxm(n.z as int, 2 * dot_s(*self, *n)),
            r.w == self.w - fxm(n.w as int, 2 * dot_s(*self, *n)),
    {
        let d: i128 = self.dot(n);
        let scaled = n.scale(2 * d);
        self.sub(&scaled)
    }

    /// Component-wise comparison within the tolerance `EPSILON`.
    pub fn approx_eq(&self, o: &Tuple) -> (r: bool)
        ensures
            r == (approx_eq_s(self.x as int, o.x as int) && approx_eq_s(self.y as int, o.y as int)
                && approx_eq_s(self.z as int, o.z as int) && approx_eq_s(
                self.w as int,
                o.w as int,
            )),
    {
        self.x.eq(o.x) && self.y.eq(o.y) && self.z.eq(o.z) && self.w.eq(o.w)
    }
}

/// Normalization yields a vector of unit length, up to the tolerance: for any
/// vector whose magnitude is at least 1/16, the magnitude of the normalized
/// components lies within `EPSILON` of 1.0.
pub proof fn lemma_normalized_magnitude(v: Tuple)
    requires
        magsq_s(v) >= 281474976710656,  // squared magnitude at least (1/16)^2
    ensures
        ({
            let m = mag_s(v);
            let nx = fxd(v.x as int, m);
            let ny = fxd(v.y as int, m);
            let nz = fxd(v.z as int, m);
            approx_eq_s(isqrt_s(nx * nx + ny * ny + nz * nz), FX_ONE as int)
        }),
{
    let s = FX_ONE as int;
    let sq = magsq_s(v);
    lemma_isqrt_exists(sq);
    let m = mag_s(v);
    assert(m >= 16777216) by (nonlinear_arith)
        requires
            sq >= 281474976710656,
            sq < (m + 1) * (m + 1),
            m >= 0,
    ;
    let cx = v.x as int;
    let cy = v.y as int;
    let cz = v.z as int;
    let qx = (cx * s) / m;
    let rx = (cx * s) % m;
    let qy = (cy * s) / m;
    let ry = (cy * s) % m;
    let qz = (cz * s) / m;
    let rz = (cz * s) % m;
    lemma_fundamental_div_mod(cx * s, m);
    lemma_fundamental_div_mod(cy * s, m);
    lemma_fundamental_div_mod(cz * s, m);
    lemma_mod_division_less_than_divisor(cx * s, m);
    lemma_mod_division_less_than_divisor(cy * s, m);
    lemma_mod_division_less_than_divisor(cz * s, m);
    assert(fxd(cx, m) == qx && fxd(cy, m) == qy && fxd(cz, m) == qz);
    assert(cx * cx <= sq && cy * cy <= sq && cz * cz <= sq) by (nonlinear_arith)
        requires
            sq == cx * cx + cy * cy + cz * cz,
    ;
    assert(-m <= cx <= m && -m <= cy <= m && -m <= cz <= m) by (nonlinear_arith)
        requires
            cx * cx <= sq,
            cy * cy <= sq,
            cz * cz <= sq,
            sq < (m + 1) * (m + 1),
            m >= 0,
    ;
    assert(-s <= qx <= s && -s <= qy <= s && -s <= qz <= s) by (nonlinear_arith)
        requires
            cx * s == m * qx + rx,
            cy * s == m * qy + ry,
            cz * s == m * qz + rz,
            0 <= rx < m,
            0 <= ry < m,
            0 <= rz < m,
            -m <= cx <= m,
            -m <= cy <= m,
            -m <= cz <= m,
            m >= 1,
            s >= 1,
    ;
    let qsum = qx * qx + qy * qy + qz * qz;
    let cross = qx * rx + qy * ry + qz * rz;
    let rsum = rx * rx + ry * ry + rz * rz;
    assert((cx * s) * (cx * s) == m * m * (qx * qx) + 2 * m * (qx * rx) + rx * rx)
        by (nonlinear_arith)
        requires
            cx * s == m * qx + rx,
    ;
    assert((cy * s) * (cy * s) == m * m * (qy * qy) + 2 * m * (qy * ry) + ry * ry)
        by (nonlinear_arith)
        requires
            cy * s == m * qy + ry,
    ;
    assert((cz * s) * (cz * s) == m * m * (qz * qz) + 2 * m * (qz * rz) + rz * rz)
        by (nonlinear_arith)
        requires
            cz * s == m * qz + rz,
    ;
    assert((cx * s) * (cx * s) == s * s * (cx * cx)) by (nonlinear_arith);
    assert((cy * s) * (cy * s) == s * s * (cy * cy)) by (nonlinear_arith);
    assert((cz * s) * (cz * s) == s * s * (cz * cz)) by (nonlinear_arith);
    assert(s * s * sq == s * s * (cx * cx) + s * s * (cy * cy) + s * s * (cz * cz))
        by (nonlinear_arith)
        requires
            sq == cx * cx + cy * cy + cz * cz,
    ;
    assert(s * s * sq == (cx * s) * (cx * s) + (cy * s) * (cy * s) + (cz * s) * (cz * s));
    assert(s * s * sq == m * m * qsum + 2 * m * cross + rsum) by (nonlinear_arith)
        requires
            s * s * sq == (m * m * (qx * qx) + 2 * m * (qx * rx) + rx * rx) + (m * m * (qy * qy) + 2
                * m * (qy * ry) + ry * ry) + (m * m * (qz * qz) + 2 * m * (qz * rz) + rz * rz),
            qsum == qx * qx + qy * qy + qz * qz,
            cross == qx * rx + qy * ry + qz * rz,
            rsum == rx * rx + ry * ry + rz * rz,
    ;
    assert(-(s * m) <= qx * rx <= s * m && -(s * m) <= qy * ry <= s * m && -(s * m) <= qz * rz <= s
        * m) by (nonlinear_arith)
        requires
            -s <= qx <= s,
            -s <= qy <= s,
            -s <= qz <= s,
            0 <= rx < m,
            0 <= ry < m,
            0 <= rz < m,
            m >= 1,
            s >= 1,
    ;
    assert(0 <= rx * rx <= m * m && 0 <= ry * ry <= m * m && 0 <= rz * rz <= m * m && 0 <= qx * qx
        && 0 <= qy * qy && 0 <= qz * qz) by (nonlinear_arith)
        requires
            0 <= rx < m,
            0 <= ry < m,
            0 <= rz < m,
            m >= 1,
    ;
    assert(-(3 * s * m) <= cross <= 3 * s * m && 0 <= rsum <= 3 * (m * m) && 0 <= qsum);
    assert(m * m <= sq && sq <= m * m + 2 * m) by (nonlinear_arith)
        requires
            m * m <= sq,
            sq < (m + 1) * (m + 1),
    ;
    assert(m * m * qsum <= s * s * (m * m + 2 * m) + 6 * s * (m * m)) by (nonlinear_arith)
        requires
            s * s * sq == m * m * qsum + 2 * m * cross + rsum,
            sq <= m * m + 2 * m,
            -(3 * s * m) <= cross,
            0 <= rsum,
            m >= 1,
            s >= 1,
    ;
    assert(s * s * (m * m + 2 * m) + 6 * s * (m * m) <= (s * s + 6 * s + 8589934592) * (m * m))
        by (nonlinear_arith)
        requires
            m >= 16777216,
            s == 268435456,
    ;
    assert(qsum <= s * s + 6 * s + 8589934592) by (nonlinear_arith)
        requires
            m * m * qsum <= (s * s + 6 * s + 8589934592) * (m * m),
            m >= 1,
    ;
    assert(m * m * qsum >= (s * s - 6 * s - 3) * (m * m)) by (nonlinear_arith)
        requires
            s * s * sq == m * m * qsum + 2 * m * cross + rsum,
            sq >= m * m,
            cross <= 3 * s * m,
            rsum <= 3 * (m * m),
            m >= 1,
            s >= 1,
    ;
    assert(qsum >= s * s - 6 * s - 3) by (nonlinear_arith)
        requires
            m * m * qsum >= (s * s - 6 * s - 3) * (m * m),
            m >= 1,
    ;
    lemma_isqrt_exists(qsum);
    let mq = isqrt_s(qsum);
    assert(mq <= s + 19) by (nonlinear_arith)
        requires
            mq * mq <= qsum,
            qsum <= s * s + 6 * s + 8589934592,
            s == 268435456,
            mq >= 0,
    ;
    assert(mq >= s - 4) by (nonlinear_arith)
        requires
            qsum < (mq + 1) * (mq + 1),
            qsum >= s * s - 6 * s - 3,
            s == 268435456,
            mq >= 0,
    ;
}

/// A component of a vector divided by the vector's magnitude lies in
/// `[-(FX_ONE + 1), FX_ONE]`.
proof fn lemma_unit_component(c: int, m: int, sq: int, csq: int)
    requires
        m >= 1,
        csq == c * c,
        csq <= sq,
        is_isqrt(sq, m),
    ensures
        -(FX_ONE + 1) <= fxd(c, m) <= FX_ONE,
{
    assert(-m <= c <= m) by (nonlinear_arith)
        requires
            c * c <= sq,
            sq < (m + 1) * (m + 1),
            m >= 1,
    ;
    assert(c * FX_ONE <= m * FX_ONE) by (nonlinear_arith)
        requires
            c <= m,
            FX_ONE > 0,
    ;
    assert((-m) * FX_ONE <= c * FX_ONE) by (nonlinear_arith)
        requires
            -m <= c,
            FX_ONE > 0,
    ;
    lemma_div_is_ordered(c * FX_ONE, m * FX_ONE, m);
    lemma_div_is_ordered((-m) * FX_ONE, c * FX_ONE, m);
    lemma_div_multiples_vanish(FX_ONE as int, m);
    lemma_div_multiples_vanish(-(FX_ONE as int), m);
    assert(m * FX_ONE == FX_ONE * m) by (nonlinear_arith);
    assert((-m) * FX_ONE == (-(FX_ONE as int)) * m) by (nonlinear_arith);
}

} // verus!
