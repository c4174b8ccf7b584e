//! 4x4 affine transform matrices in homogeneous coordinates.
//!
//! Inversion uses the general minor/cofactor/determinant method; a matrix
//! whose determinant is within the tolerance of zero is non-invertible.

use crate::fixed::{fx_div, fx_mul, fxd, fxm, lemma_fxm_in, EPSILON, FX_DIV_MAX, FX_ONE};
use crate::tuple::{tup_bounded, Tuple};
use vstd::prelude::*;

verus! {

/// Largest entry magnitude accepted by `determinant` and `inverse` (2^35,
/// about 128 in real terms).
pub const MAT_MAX: i128 = 34359738368;

/// Largest component accepted for a world-space point or ray (2^34, about 64
/// in real terms).
pub const RAY_MAX: i128 = 17179869184;

/// Bound on the components of a tuple taken to object space (2^43).
pub const LOCAL_MAX: i128 = 8796093022208;

/// Bound on the components of a local-space surface normal (2^44).
pub const NORMAL_MAX: i128 = 17592186044416;

/// Bound on the components of a normal taken back to world space (2^53).
pub const WN_MAX: i128 = 9007199254740992;

/// Largest entry magnitude accepted by the product routines (2^48).
pub const MATMUL_MAX: i128 = 281474976710656;

/// Bound on a 3x3 minor determinant (2^52).
pub const COF_MAX: i128 = 4503599627370496;

/// Bound on a 4x4 determinant of a `MAT_MAX`-bounded matrix (2^61).
pub const DET_MAX: i128 = 2305843009213693952;

const TV_LOCAL: i128 = 2199023255552;

const TV_WN: i128 = 2251799813685248;

const MIN3_MAX: i128 = 4398046511104;

const COF_TERM: i128 = 1125899906842624;

const DET_TERM: i128 = 576460752303423488;

/// Row-major 4x4 matrix of fixed-point scalars; `mRC` is row R, column C.
#[derive(Clone, Copy, Debug, PartialEq, Eq, Structural)]
pub struct Matrix {
    pub m00: i128,
    pub m01: i128,
    pub m02: i128,
    pub m03: i128,
    pub m10: i128,
    pub m11: i128,
    pub m12: i128,
    pub m13: i128,
    pub m20: i128,
    pub m21: i128,
    pub m22: i128,
    pub m23: i128,
    pub m30: i128,
    pub m31: i128,
    pub m32: i128,
    pub m33: i128,
}

/// Every entry within `b` in magnitude.
pub open spec fn mat_bounded(m: Matrix, b: int) -> bool {
    &&& -b <= m.m00 <= b && -b <= m.m01 <= b && -b <= m.m02 <= b && -b <= m.m03 <= b
    &&& -b <= m.m10 <= b && -b <= m.m11 <= b && -b <= m.m12 <= b && -b <= m.m13 <= b
    &&& -b <= m.m20 <= b && -b <= m.m21 <= b && -b <= m.m22 <= b && -b <= m.m23 <= b
    &&& -b <= m.m30 <= b && -b <= m.m31 <= b && -b <= m.m32 <= b && -b <= m.m33 <= b
}

/// Fixed-point inner product of a matrix row and a column.
pub open spec fn rc_s(a0: int, a1: int, a2: int, a3: int, b0: int, b1: int, b2: int, b3: int) -> int {
    fxm(a0, b0) + fxm(a1, b1) + fxm(a2, b2) + fxm(a3, b3)
}

/// x component of `m` applied to `t`.
pub open spec fn mat_vec_x(m: Matrix, t: Tuple) -> int {
    rc_s(m.m00 as int, m.m01 as int, m.m02 as int, m.m03 as int, t.x as int, t.y as int, t.z as int, t.w as int)
}

/// y component of `m` applied to `t`.
pub open spec fn mat_vec_y(m: Matrix, t: Tuple) -> int {
    rc_s(m.m10 as int, m.m11 as int, m.m12 as int, m.m13 as int, t.x as int, t.y as int, t.z as int, t.w as int)
}

/// z component of `m` applied to `t`.
pub open spec fn mat_vec_z(m: Matrix, t: Tuple) -> int {
    rc_s(m.m20 as int, m.m21 as int, m.m22 as int, m.m23 as int, t.x as int, t.y as int, t.z as int, t.w as int)
}

/// w component of `m` applied to `t`.
pub open spec fn mat_vec_w(m: Matrix, t: Tuple) -> int {
    rc_s(m.m30 as int, m.m31 as int, m.m32 as int, m.m33 as int, t.x as int, t.y as int, t.z as int, t.w as int)
}

/// Fixed-point determinant of a 3x3 matrix given row by row.
pub open spec fn det3_s(a: int, b: int, c: int, d: int, e: int, f: int, g: int, h: int, i: int) -> int {
    fxm(a, fxm(e, i) - fxm(f, h)) - fxm(b, fxm(d, i) - fxm(f, g)) + fxm(c, fxm(d, h) - fxm(e, g))
}

/// Cofactor of entry (0,0) of `m`, and so on for the rest.
pub open spec fn cof00(m: Matrix) -> int {
    det3_s(m.m11 as int, m.m12 as int, m.m13 as int, m.m21 as int, m.m22 as int, m.m23 as int, m.m31 as int, m.m32 as int, m.m33 as int)
}

pub open spec fn cof01(m: Matrix) -> int {
    -det3_s(m.m10 as int, m.m12 as int, m.m13 as int, m.m20 as int, m.m22 as int, m.m23 as int, m.m30 as int, m.m32 as int, m.m33 as int)
}

pub open spec fn cof02(m: Matrix) -> int {
    det3_s(m.m10 as int, m.m11 as int, m.m13 as int, m.m20 as int, m.m21 as int, m.m23 as int, m.m30 as int, m.m31 as int, m.m33 as int)
}

pub open spec fn cof03(m: Matrix) -> int {
    -det3_s(m.m10 as int, m.m11 as int, m.m12 as int, m.m20 as int, m.m21 as int, m.m22 as int, m.m30 as int, m.m31 as int, m.m32 as int)
}

pub open spec fn cof10(m: Matrix) -> int {
    -det3_s(m.m01 as int, m.m02 as int, m.m03 as int, m.m21 as int, m.m22 as int, m.m23 as int, m.m31 as int, m.m32 as int, m.m33 as int)
}

pub open spec fn cof11(m: Matrix) -> int {
    det3_s(m.m00 as int, m.m02 as int, m.m03 as int, m.m20 as int, m.m22 as int, m.m23 as int, m.m30 as int, m.m32 as int, m.m33 as int)
}

pub open spec fn cof12(m: Matrix) -> int {
    -det3_s(m.m00 as int, m.m01 as int, m.m03 as int, m.m20 as int, m.m21 as int, m.m23 as int, m.m30 as int, m.m31 as int, m.m33 as int)
}

pub open spec fn cof13(m: Matrix) -> int {
    det3_s(m.m00 as int, m.m01 as int, m.m02 as int, m.m20 as int, m.m21 as int, m.m22 as int, m.m30 as int, m.m31 as int, m.m32 as int)
}

pub open spec fn cof20(m: Matrix) -> int {
    det3_s(m.m01 as int, m.m02 as int, m.m03 as int, m.m11 as int, m.m12 as int, m.m13 as int, m.m31 as int, m.m32 as int, m.m33 as int)
}

pub open spec fn cof21(m: Matrix) -> int {
    -det3_s(m.m00 as int, m.m02 as int, m.m03 as int, m.m10 as int, m.m12 as int, m.m13 as int, m.m30 as int, m.m32 as int, m.m33 as int)
}

pub open spec fn cof22(m: Matrix) -> int {
    det3_s(m.m00 as int, m.m01 as int, m.m03 as int, m.m10 as int, m.m11 as int, m.m13 as int, m.m30 as int, m.m31 as int, m.m33 as int)
}

pub open spec fn cof23(m: Matrix) -> int {
    -det3_s(m.m00 as int, m.m01 as int, m.m02 as int, m.m10 as int, m.m11 as int, m.m12 as int, m.m30 as int, m.m31 as int, m.m32 as int)
}

pub open spec fn cof30(m: Matrix) -> int {
    -det3_s(m.m01 as int, m.m02 as int, m.m03 as int, m.m11 as int, m.m12 as int, m.m13 as int, m.m21 as int, m.m22 as int, m.m23 as int)
}

pub open spec fn cof31(m: Matrix) -> int {
    det3_s(m.m00 as int, m.m02 as int, m.m03 as int, m.m10 as int, m.m12 as int, m.m13 as int, m.m20 as int, m.m22 as int, m.m23 as int)
}

pub open spec fn cof32(m: Matrix) -> int {
    -det3_s(m.m00 as int, m.m01 as int, m.m03 as int, m.m10 as int, m.m11 as int, m.m13 as int, m.m20 as int, m.m21 as int, m.m23 as int)
}

pub open spec fn cof33(m: Matrix) -> int {
    det3_s(m.m00 as int, m.m01 as int, m.m02 as int, m.m10 as int, m.m11 as int, m.m12 as int, m.m20 as int, m.m21 as int, m.m22 as int)
}

/// Fixed-point determinant of `m`, by cofactor expansion along the first row.
pub open spec fn det_s(m: Matrix) -> int {
    fxm(m.m00 as int, cof00(m)) + fxm(m.m01 as int, cof01(m)) + fxm(m.m02 as int, cof02(m)) + fxm(
        m.m03 as int,
        cof03(m),
    )
}

/// `m` counts as non-invertible when its determinant is within tolerance of zero.
pub open spec fn singular_s(m: Matrix) -> bool {
    -(EPSILON as int) < det_s(m) < EPSILON as int
}

/// Entry (R,C) of the inverse is the cofactor of (C,R) over the determinant.
pub open spec fn inv_entry(c: int, d: int) -> int {
    fxd(c, d)
}

/// The inverse of `m` as a whole, entry by entry.
pub open spec fn inv_s(m: Matrix) -> Matrix {
    let d = det_s(m);
    Matrix {
        m00: inv_entry(cof00(m), d) as i128,
        m01: inv_entry(cof10(m), d) as i128,
        m02: inv_entry(cof20(m), d) as i128,
        m03: inv_entry(cof30(m), d) as i128,
        m10: inv_entry(cof01(m), d) as i128,
        m11: inv_entry(cof11(m), d) as i128,
        m12: inv_entry(cof21(m), d) as i128,
        m13: inv_entry(cof31(m), d) as i128,
        m20: inv_entry(cof02(m), d) as i128,
        m21: inv_entry(cof12(m), d) as i128,
        m22: inv_entry(cof22(m), d) as i128,
        m23: inv_entry(cof32(m), d) as i128,
        m30: inv_entry(cof03(m), d) as i128,
        m31: inv_entry(cof13(m), d) as i128,
        m32: inv_entry(cof23(m), d) as i128,
        m33: inv_entry(cof33(m), d) as i128,
    }
}

/// The transpose of `m`.
pub open spec fn transpose_s(m: Matrix) -> Matrix {
    Matrix {
        m00: m.m00,
        m01: m.m10,
        m02: m.m20,
        m03: m.m30,
        m10: m.m01,
        m11: m.m11,
        m12: m.m21,
        m13: m.m31,
        m20: m.m02,
        m21: m.m12,
        m22: m.m22,
        m23: m.m32,
        m30: m.m03,
        m31: m.m13,
        m32: m.m23,
        m33: m.m33,
    }
}

/// 3x3 fixed-point determinant, rows (a b c), (d e f), (g h i).
fn det3(a: i128, b: i128, c: i128, d: i128, e: i128, f: i128, g: i128, h: i128, i: i128) -> (r:
    i128)
    requires
        -MAT_MAX <= a <= MAT_MAX,
        -MAT_MAX <= b <= MAT_MAX,
        -MAT_MAX <= c <= MAT_MAX,
        -MAT_MAX <= d <= MAT_MAX,
        -MAT_MAX <= e <= MAT_MAX,
        -MAT_MAX <= f <= MAT_MAX,
        -MAT_MAX <= g <= MAT_MAX,
        -MAT_MAX <= h <= MAT_MAX,
        -MAT_MAX <= i <= MAT_MAX,
    ensures
        r == det3_s(
            a as int,
            b as int,
            c as int,
            d as int,
            e as int,
            f as int,
            g as int,
            h as int,
            i as int,
        ),
        -COF_MAX <= r <= COF_MAX,
{
    proof {
        assert(-(FX_ONE * MIN3_MAX) <= e * i <= FX_ONE * MIN3_MAX && -(FX_ONE * MIN3_MAX) <= f * h
            <= FX_ONE * MIN3_MAX && -(FX_ONE * MIN3_MAX) <= d * i <= FX_ONE * MIN3_MAX && -(FX_ONE
            * MIN3_MAX) <= f * g <= FX_ONE * MIN3_MAX && -(FX_ONE * MIN3_MAX) <= d * h <= FX_ONE
            * MIN3_MAX && -(FX_ONE * MIN3_MAX) <= e * g <= FX_ONE * MIN3_MAX) by (nonlinear_arith)
            requires
                -MAT_MAX <= d <= MAT_MAX,
                -MAT_MAX <= e <= MAT_MAX,
                -MAT_MAX <= f <= MAT_MAX,
                -MAT_MAX <= g <= MAT_MAX,
                -MAT_MAX <= h <= MAT_MAX,
                -MAT_MAX <= i <= MAT_MAX,
                MAT_MAX * MAT_MAX <= FX_ONE * MIN3_MAX,
        ;
        lemma_fxm_in(e as int, i as int, MIN3_MAX as int);
        lemma_fxm_in(f as int, h as int, MIN3_MAX as int);
        lemma_fxm_in(d as int, i as int, MIN3_MAX as int);
        lemma_fxm_in(f as int, g as int, MIN3_MAX as int);
        lemma_fxm_in(d as int, h as int, MIN3_MAX as int);
        lemma_fxm_in(e as int, g as int, MIN3_MAX as int);
    }
    let mei: i128 = fx_mul(e, i);
    let mfh: i128 = fx_mul(f, h);
    let mdi: i128 = fx_mul(d, i);
    let mfg: i128 = fx_mul(f, g);
    let mdh: i128 = fx_mul(d, h);
    let meg: i128 = fx_mul(e, g);
    proof {
        assert(-(FX_ONE * COF_TERM) <= a * (mei - mfh) <= FX_ONE * COF_TERM && -(FX_ONE * COF_TERM)
            <= b * (mdi - mfg) <= FX_ONE * COF_TERM && -(FX_ONE * COF_TERM) <= c * (mdh - meg)
            <= FX_ONE * COF_TERM) by (nonlinear_arith)
            requires
                -MAT_MAX <= a <= MAT_MAX,
                -MAT_MAX <= b <= MAT_MAX,
                -MAT_MAX <= c <= MAT_MAX,
                -(2 * MIN3_MAX) <= mei - mfh <= 2 * MIN3_MAX,
                -(2 * MIN3_MAX) <= mdi - mfg <= 2 * MIN3_MAX,
                -(2 * MIN3_MAX) <= mdh - meg <= 2 * MIN3_MAX,
                MAT_MAX * (2 * MIN3_MAX) <= FX_ONE * COF_TERM,
        ;
        lemma_fxm_in(a as int, mei - mfh, COF_TERM as int);
        lemma_fxm_in(b as int, mdi - mfg, COF_TERM as int);
        lemma_fxm_in(c as int, mdh - meg, COF_TERM as int);
        assert(3 * COF_TERM <= COF_MAX);
    }
    fx_mul(a, mei - mfh) - fx_mul(b, mdi - mfg) + fx_mul(c, mdh - meg)
}

/// The identity matrix as a value.
pub open spec fn identity_s() -> Matrix {
    Matrix {
        m00: FX_ONE,
        m01: 0,
        m02: 0,
        m03: 0,
        m10: 0,
        m11: FX_ONE,
        m12: 0,
        m13: 0,
        m20: 0,
        m21: 0,
        m22: FX_ONE,
        m23: 0,
        m30: 0,
        m31: 0,
        m32: 0,
        m33: FX_ONE,
    }
}

impl Matrix {
    /// The identity transform.
    #[allow(non_snake_case)]
    pub fn I() -> (r: Matrix)
        ensures
            r == identity_s(),
            r == (Matrix {
                m00: FX_ONE,
                m01: 0,
                m02: 0,
                m03: 0,
                m10: 0,
                m11: FX_ONE,
                m12: 0,
                m13: 0,
                m20: 0,
                m21: 0,
                m22: FX_ONE,
                m23: 0,
                m30: 0,
                m31: 0,
                m32: 0,
                m33: FX_ONE,
            }),
    {
        Matrix {
            m00: FX_ONE,
            m01: 0,
            m02: 0,
            m03: 0,
            m10: 0,
            m11: FX_ONE,
            m12: 0,
            m13: 0,
            m20: 0,
            m21: 0,
            m22: FX_ONE,
            m23: 0,
            m30: 0,
            m31: 0,
            m32: 0,
            m33: FX_ONE,
        }
    }

    /// Translation by (x, y, z).
    pub fn get_translation_matrix(x: i128, y: i128, z: i128) -> (r: Matrix)
        ensures
            r == (Matrix {
                m00: FX_ONE,
                m01: 0,
                m02: 0,
                m03: x,
                m10: 0,
                m11: FX_ONE,
                m12: 0,
                m13: y,
                m20: 0,
                m21: 0,
                m22: FX_ONE,
                m23: z,
                m30: 0,
                m31: 0,
                m32: 0,
                m33: FX_ONE,
            }),
    {
        Matrix {
            m00: FX_ONE,
            m01: 0,
            m02: 0,
            m03: x,
            m10: 0,
            m11: FX_ONE,
            m12: 0,
            m13: y,
            m20: 0,
            m21: 0,
            m22: FX_ONE,
            m23: z,
            m30: 0,
            m31: 0,
            m32: 0,
            m33: FX_ONE,
        }
    }

    /// Scaling by (x, y, z).
    pub fn get_scaling_matrix(x: i128, y: i128, z: i128) -> (r: Matrix)
        ensures
            r == (Matrix {
                m00: x,
                m01: 0,
                m02: 0,
                m03: 0,
                m10: 0,
                m11: y,
                m12: 0,
                m13: 0,
                m20: 0,
                m21: 0,
                m22: z,
                m23: 0,
                m30: 0,
                m31: 0,
                m32: 0,
                m33: FX_ONE,
            }),
    {
        Matrix {
            m00: x,
            m01: 0,
            m02: 0,
            m03: 0,
            m10: 0,
            m11: y,
            m12: 0,
            m13: 0,
            m20: 0,
            m21: 0,
            m22: z,
            m23: 0,
            m30: 0,
            m31: 0,
            m32: 0,
            m33: FX_ONE,
        }
    }

    /// Rotation about the x axis; the caller supplies the cosine and sine of
    /// the angle as fixed-point scalars.
    pub fn get_rotation_x_matrix(cos_t: i128, sin_t: i128) -> (r: Matrix)
        requires
            -FX_DIV_MAX <= cos_t <= FX_DIV_MAX,
            -FX_DIV_MAX <= sin_t <= FX_DIV_MAX,
        ensures
            r.m00 == FX_ONE && r.m01 == 0 && r.m02 == 0 && r.m03 == 0,
            r.m10 == 0 && r.m11 == cos_t && r.m12 == -sin_t && r.m13 == 0,
            r.m20 == 0 && r.m21 == sin_t && r.m22 == cos_t && r.m23 == 0,
            r.m30 == 0 && r.m31 == 0 && r.m32 == 0 && r.m33 == FX_ONE,
    {
        Matrix {
            m00: FX_ONE,
            m01: 0,
            m02: 0,
            m03: 0,
            m10: 0,
            m11: cos_t,
            m12: -sin_t,
            m13: 0,
            m20: 0,
            m21: sin_t,
            m22: cos_t,
            m23: 0,
            m30: 0,
            m31: 0,
            m32: 0,
            m33: FX_ONE,
        }
    }

    /// Rotation about the y axis from the cosine and sine of the angle.
    pub fn get_rotation_y_matrix(cos_t: i128, sin_t: i128) -> (r: Matrix)
        requires
            -FX_DIV_MAX <= cos_t <= FX_DIV_MAX,
            -FX_DIV_MAX <= sin_t <= FX_DIV_MAX,
        ensures
            r.m00 == cos_t && r.m01 == 0 && r.m02 == sin_t && r.m03 == 0,
            r.m10 == 0 && r.m11 == FX_ONE && r.m12 == 0 && r.m13 == 0,
            r.m20 == -sin_t && r.m21 == 0 && r.m22 == cos_t && r.m23 == 0,
            r.m30 == 0 && r.m31 == 0 && r.m32 == 0 && r.m33 == FX_ONE,
    {
        Matrix {
            m00: cos_t,
            m01: 0,
            m02: sin_t,
            m03: 0,
            m10: 0,
            m11: FX_ONE,
            m12: 0,
            m13: 0,
            m20: -sin_t,
            m21: 0,
            m22: cos_t,
            m23: 0,
            m30: 0,
            m31: 0,
            m32: 0,
            m33: FX_ONE,
        }
    }

    /// Rotation about the z axis from the cosine and sine of the angle.
    pub fn get_rotation_z_matrix(cos_t: i128, sin_t: i128) -> (r: Matrix)
        requires
            -FX_DIV_MAX <= cos_t <= FX_DIV_MAX,
            -FX_DIV_MAX <= sin_t <= FX_DIV_MAX,
        ensures
            r.m00 == cos_t && r.m01 == -sin_t && r.m02 == 0 && r.m03 == 0,
            r.m10 == sin_t && r.m11 == cos_t && r.m12 == 0 && r.m13 == 0,
            r.m20 == 0 && r.m21 == 0 && r.m22 == FX_ONE && r.m23 == 0,
            r.m30 == 0 && r.m31 == 0 && r.m32 == 0 && r.m33 == FX_ONE,
    {
        Matrix {
            m00: cos_t,
            m01: -sin_t,
            m02: 0,
            m03: 0,
            m10: sin_t,
            m11: cos_t,
            m12: 0,
            m13: 0,
            m20: 0,
            m21: 0,
            m22: FX_ONE,
            m23: 0,
            m30: 0,
            m31: 0,
            m32: 0,
            m33: FX_ONE,
        }
    }

    /// Shear with the six classic coefficients.
    pub fn get_shearing_matrix(xy: i128, xz: i128, yx: i128, yz: i128, zx: i128, zy: i128) -> (r:
        Matrix)
        ensures
            r == (Matrix {
                m00: FX_ONE,
                m01: xy,
                m02: xz,
                m03: 0,
                m10: yx,
                m11: FX_ONE,
                m12: yz,
                m13: 0,
                m20: zx,
                m21: zy,
                m22: FX_ONE,
                m23: 0,
                m30: 0,
                m31: 0,
                m32: 0,
                m33: FX_ONE,
            }),
    {
        Matrix {
            m00: FX_ONE,
            m01: xy,
            m02: xz,
            m03: 0,
            m10: yx,
            m11: FX_ONE,
            m12: yz,
            m13: 0,
            m20: zx,
            m21: zy,
            m22: FX_ONE,
            m23: 0,
            m30: 0,
            m31: 0,
            m32: 0,
            m33: FX_ONE,
        }
    }

    /// Matrix product `self * o`; `o` is the transform applied first.
    #[verifier::rlimit(40)]
    pub fn mul(&self, o: &Matrix) -> (r: Matrix)
        requires
            mat_bounded(*self, MATMUL_MAX as int),
            mat_bounded(*o, MATMUL_MAX as int),
        ensures
            r.m00 == rc_s(self.m00 as int, self.m01 as int, self.m02 as int, self.m03 as int, o.m00 as int, o.m10 as int, o.m20 as int, o.m30 as int),
            r.m01 == rc_s(self.m00 as int, self.m01 as int, self.m02 as int, self.m03 as int, o.m01 as int, o.m11 as int, o.m21 as int, o.m31 as int),
            r.m02 == rc_s(self.m00 as int, self.m01 as int, self.m02 as int, self.m03 as int, o.m02 as int, o.m12 as int, o.m22 as int, o.m32 as int),
            r.m03 == rc_s(self.m00 as int, self.m01 as int, self.m02 as int, self.m03 as int, o.m03 as int, o.m13 as int, o.m23 as int, o.m33 as int),
            r.m10 == rc_s(self.m10 as int, self.m11 as int, self.m12 as int, self.m13 as int, o.m00 as int, o.m10 as int, o.m20 as int, o.m30 as int),
            r.m11 == rc_s(self.m10 as int, self.m11 as int, self.m12 as int, self.m13 as int, o.m01 as int, o.m11 as int, o.m21 as int, o.m31 as int),
            r.m12 == rc_s(self.m10 as int, self.m11 as int, self.m12 as int, self.m13 as int, o.m02 as int, o.m12 as int, o.m22 as int, o.m32 as int),
            r.m13 == rc_s(self.m10 as int, self.m11 as int, self.m12 as int, self.m13 as int, o.m03 as int, o.m13 as int, o.m23 as int, o.m33 as int),
            r.m20 == rc_s(self.m20 as int, self.m21 as int, self.m22 as int, self.m23 as int, o.m00 as int, o.m10 as int, o.m20 as int, o.m30 as int),
            r.m21 == rc_s(self.m20 as int, self.m21 as int, self.m22 as int, self.m23 as int, o.m01 as int, o.m11 as int, o.m21 as int, o.m31 as int),
            r.m22 == rc_s(self.m20 as int, self.m21 as int, self.m22 as int, self.m23 as int, o.m02 as int, o.m12 as int, o.m22 as int, o.m32 as int),
            r.m23 == rc_s(self.m20 as int, self.m21 as int, self.m22 as int, self.m23 as int, o.m03 as int, o.m13 as int, o.m23 as int, o.m33 as int),
            r.m30 == rc_s(self.m30 as int, self.m31 as int, self.m32 as int, self.m33 as int, o.m00 as int, o.m10 as int, o.m20 as int, o.m30 as int),
            r.m31 == rc_s(self.m30 as int, self.m31 as int, self.m32 as int, self.m33 as int, o.m01 as int, o.m11 as int, o.m21 as int, o.m31 as int),
            r.m32 == rc_s(self.m30 as int, self.m31 as int, self.m32 as int, self.m33 as int, o.m02 as int, o.m12 as int, o.m22 as int, o.m32 as int),
            r.m33 == rc_s(self.m30 as int, self.m31 as int, self.m32 as int, self.m33 as int, o.m03 as int, o.m13 as int, o.m23 as int, o.m33 as int),
    {
        Matrix {
            m00: fx_mul(self.m00, o.m00) + fx_mul(self.m01, o.m10) + fx_mul(self.m02, o.m20)
                + fx_mul(self.m03, o.m30),
            m01: fx_mul(self.m00, o.m01) + fx_mul(self.m01, o.m11) + fx_mul(self.m02, o.m21)
                + fx_mul(self.m03, o.m31),
            m02: fx_mul(self.m00, o.m02) + fx_mul(self.m01, o.m12) + fx_mul(self.m02, o.m22)
                + fx_mul(self.m03, o.m32),
            m03: fx_mul(self.m00, o.m03) + fx_mul(self.m01, o.m13) + fx_mul(self.m02, o.m23)
                + fx_mul(self.m03, o.m33),
            m10: fx_mul(self.m10, o.m00) + fx_mul(self.m11, o.m10) + fx_mul(self.m12, o.m20)
                + fx_mul(self.m13, o.m30),
            m11: fx_mul(self.m10, o.m01) + fx_mul(self.m11, o.m11) + fx_mul(self.m12, o.m21)
                + fx_mul(self.m13, o.m31),
            m12: fx_mul(self.m10, o.m02) + fx_mul(self.m11, o.m12) + fx_mul(self.m12, o.m22)
                + fx_mul(self.m13, o.m32),
            m13: fx_mul(self.m10, o.m03) + fx_mul(self.m11, o.m13) + fx_mul(self.m12, o.m23)
                + fx_mul(self.m13, o.m33),
            m20: fx_mul(self.m20, o.m00) + fx_mul(self.m21, o.m10) + fx_mul(self.m22, o.m20)
                + fx_mul(self.m23, o.m30),
            m21: fx_mul(self.m20, o.m01) + fx_mul(self.m21, o.m11) + fx_mul(self.m22, o.m21)
                + fx_mul(self.m23, o.m31),
            m22: fx_mul(self.m20, o.m02) + fx_mul(self.m21, o.m12) + fx_mul(self.m22, o.m22)
                + fx_mul(self.m23, o.m32),
            m23: fx_mul(self.m20, o.m03) + fx_mul(self.m21, o.m13) + fx_mul(self.m22, o.m23)
                + fx_mul(self.m23, o.m33),
            m30: fx_mul(self.m30, o.m00) + fx_mul(self.m31, o.m10) + fx_mul(self.m32, o.m20)
                + fx_mul(self.m33, o.m30),
            m31: fx_mul(self.m30, o.m01) + fx_mul(self.m31, o.m11) + fx_mul(self.m32, o.m21)
                + fx_mul(self.m33, o.m31),
            m32: fx_mul(self.m30, o.m02) + fx_mul(self.m31, o.m12) + fx_mul(self.m32, o.m22)
                + fx_mul(self.m33, o.m32),
            m33: fx_mul(self.m30, o.m03) + fx_mul(self.m31, o.m13) + fx_mul(self.m32, o.m23)
                + fx_mul(self.m33, o.m33),
        }
    }

    /// Applies `self` to the tuple `t`.
    #[verifier::rlimit(40)]
    pub fn mul_tuple(&self, t: &Tuple) -> (r: Tuple)
        requires
            mat_bounded(*self, MATMUL_MAX as int),
            tup_bounded(*t, MATMUL_MAX as int),
        ensures
            r.x == mat_vec_x(*self, *t),
            r.y == mat_vec_y(*self, *t),
            r.z == mat_vec_z(*self, *t),
            r.w == mat_vec_w(*self, *t),
            (mat_bounded(*self, MAT_MAX as int) && tup_bounded(*t, RAY_MAX as int)) ==> tup_bounded(
                r,
                LOCAL_MAX as int,
            ),
            (mat_bounded(*self, MAT_MAX as int) && tup_bounded(*t, NORMAL_MAX as int))
                ==> tup_bounded(r, WN_MAX as int),
    {
        proof {
            if mat_bounded(*self, MAT_MAX as int) && tup_bounded(*t, NORMAL_MAX as int) {
                lemma_mat_vec_bound(*self, *t, NORMAL_MAX as int, TV_WN as int);
            }
            if mat_bounded(*self, MAT_MAX as int) && tup_bounded(*t, RAY_MAX as int) {
                lemma_mat_vec_bound(*self, *t, RAY_MAX as int, TV_LOCAL as int);
            }
        }
        Tuple {
            x: fx_mul(self.m00, t.x) + fx_mul(self.m01, t.y) + fx_mul(self.m02, t.z) + fx_mul(
                self.m03,
                t.w,
            ),
            y: fx_mul(self.m10, t.x) + fx_mul(self.m11, t.y) + fx_mul(self.m12, t.z) + fx_mul(
                self.m13,
                t.w,
            ),
            z: fx_mul(self.m20, t.x) + fx_mul(self.m21, t.y) + fx_mul(self.m22, t.z) + fx_mul(
                self.m23,
                t.w,
            ),
            w: fx_mul(self.m30, t.x) + fx_mul(self.m31, t.y) + fx_mul(self.m32, t.z) + fx_mul(
                self.m33,
                t.w,
            ),
        }
    }

    /// The transpose of `self`.
    pub fn transpose(&self) -> (r: Matrix)
        ensures
            r == transpose_s(*self),
    {
        Matrix {
            m00: self.m00,
            m01: self.m10,
            m02: self.m20,
            m03: self.m30,
            m10: self.m01,
            m11: self.m11,
            m12: self.m21,
            m13: self.m31,
            m20: self.m02,
            m21: self.m12,
            m22: self.m22,
            m23: self.m32,
            m30: self.m03,
            m31: self.m13,
            m32: self.m23,
            m33: self.m33,
        }
    }

    /// The determinant of `self` by cofactor expansion.
    pub fn determinant(&self) -> (r: i128)
        requires
            mat_bounded(*self, MAT_MAX as int),
        ensures
            r == det_s(*self),
            -DET_MAX <= r <= DET_MAX,
    {
        let c0 = det3(
            self.m11, self.m12, self.m13,
            self.m21, self.m22, self.m23,
            self.m31, self.m32, self.m33,
        );
        let c1 = -det3(
            self.m10, self.m12, self.m13,
            self.m20, self.m22, self.m23,
            self.m30, self.m32, self.m33,
        );
        let c2 = det3(
            self.m10, self.m11, self.m13,
            self.m20, self.m21, self.m23,
            self.m30, self.m31, self.m33,
        );
        let c3 = -det3(
            self.m10, self.m11, self.m12,
            self.m20, self.m21, self.m22,
            self.m30, self.m31, self.m32,
        );
        proof {
            lemma_det_terms(*self, c0 as int, c1 as int, c2 as int, c3 as int);
        }
        fx_mul(self.m00, c0) + fx_mul(self.m01, c1) + fx_mul(self.m02, c2) + fx_mul(self.m03, c3)
    }

    /// The inverse of `self`, or `None` when the determinant is within the
    /// tolerance of zero (a non-invertible scene configuration).
    #[verifier::rlimit(60)]
    pub fn inverse(&self) -> (r: Option<Matrix>)
        requires
            mat_bounded(*self, MAT_MAX as int),
        ensures
            r is None <==> singular_s(*self),
            r matches Some(inv) ==> inv == inv_s(*self),
    {
        let det = self.determinant();
        if -EPSILON < det && det < EPSILON {
            None
        } else {
            let c00 = det3(
                self.m11, self.m12, self.m13,
                self.m21, self.m22, self.m23,
                self.m31, self.m32, self.m33,
            );
            let c01 = -det3(
                self.m10, self.m12, self.m13,
                self.m20, self.m22, self.m23,
                self.m30, self.m32, self.m33,
            );
            let c02 = det3(
                self.m10, self.m11, self.m13,
                self.m20, self.m21, self.m23,
                self.m30, self.m31, self.m33,
            );
            let c03 = -det3(
                self.m10, self.m11, self.m12,
                self.m20, self.m21, self.m22,
                self.m30, self.m31, self.m32,
            );
            let c10 = -det3(
                self.m01, self.m02, self.m03,
                self.m21, self.m22, self.m23,
                self.m31, self.m32, self.m33,
            );
            let c11 = det3(
                self.m00, self.m02, self.m03,
                self.m20, self.m22, self.m23,
                self.m30, self.m32, self.m33,
            );
            let c12 = -det3(
                self.m00, self.m01, self.m03,
                self.m20, self.m21, self.m23,
                self.m30, self.m31, self.m33,
            );
            let c13 = det3(
                self.m00, self.m01, self.m02,
                self.m20, self.m21, self.m22,
                self.m30, self.m31, self.m32,
            );
            let c20 = det3(
                self.m01, self.m02, self.m03,
                self.m11, self.m12, self.m13,
                self.m31, self.m32, self.m33,
            );
            let c21 = -det3(
                self.m00, self.m02, self.m03,
                self.m10, self.m12, self.m13,
                self.m30, self.m32, self.m33,
            );
            let c22 = det3(
                self.m00, self.m01, self.m03,
                self.m10, self.m11, self.m13,
                self.m30, self.m31, self.m33,
            );
            let c23 = -det3(
                self.m00, self.m01, self.m02,
                self.m10, self.m11, self.m12,
                self.m30, self.m31, self.m32,
            );
            let c30 = -det3(
                self.m01, self.m02, self.m03,
                self.m11, self.m12, self.m13,
                self.m21, self.m22, self.m23,
            );
            let c31 = det3(
                self.m00, self.m02, self.m03,
                self.m10, self.m12, self.m13,
                self.m20, self.m22, self.m23,
            );
            let c32 = -det3(
                self.m00, self.m01, self.m03,
                self.m10, self.m11, self.m13,
                self.m20, self.m21, self.m23,
            );
            let c33 = det3(
                self.m00, self.m01, self.m02,
                self.m10, self.m11, self.m12,
                self.m20, self.m21, self.m22,
            );
            Some(
                Matrix {
                    m00: fx_div(c00, det),
                    m01: fx_div(c10, det),
                    m02: fx_div(c20, det),
                    m03: fx_div(c30, det),
                    m10: fx_div(c01, det),
                    m11: fx_div(c11, det),
                    m12: fx_div(c21, det),
                    m13: fx_div(c31, det),
                    m20: fx_div(c02, det),
                    m21: fx_div(c12, det),
                    m22: fx_div(c22, det),
                    m23: fx_div(c32, det),
                    m30: fx_div(c03, det),
                    m31: fx_div(c13, det),
                    m32: fx_div(c23, det),
                    m33: fx_div(c33, det),
                },
            )
        }
    }
}

/// Bounds for one application of a `MAT_MAX` matrix to a `tb`-bounded tuple:
/// each fixed-point product stays within `term`.
proof fn lemma_mat_vec_bound(m: Matrix, t: Tuple, tb: int, term: int)
    requires
        mat_bounded(m, MAT_MAX as int),
        tup_bounded(t, tb),
        0 <= tb,
        0 <= term,
        MAT_MAX * tb <= FX_ONE * term,
    ensures
        -(4 * term) <= mat_vec_x(m, t) <= 4 * term,
        -(4 * term) <= mat_vec_y(m, t) <= 4 * term,
        -(4 * term) <= mat_vec_z(m, t) <= 4 * term,
        -(4 * term) <= mat_vec_w(m, t) <= 4 * term,
{
    assert forall|a: int, b: int|
        -(MAT_MAX as int) <= a <= MAT_MAX as int && -tb <= b <= tb implies -(FX_ONE * term)
        <= #[trigger] (a * b) <= FX_ONE * term by {
        assert(-(FX_ONE * term) <= a * b <= FX_ONE * term) by (nonlinear_arith)
            requires
                -(MAT_MAX as int) <= a <= MAT_MAX as int,
                -tb <= b <= tb,
                0 <= tb,
                MAT_MAX * tb <= FX_ONE * term,
        ;
    }
    lemma_fxm_in(m.m00 as int, t.x as int, term);
    lemma_fxm_in(m.m01 as int, t.y as int, term);
    lemma_fxm_in(m.m02 as int, t.z as int, term);
    lemma_fxm_in(m.m03 as int, t.w as int, term);
    lemma_fxm_in(m.m10 as int, t.x as int, term);
    lemma_fxm_in(m.m11 as int, t.y as int, term);
    lemma_fxm_in(m.m12 as int, t.z as int, term);
    lemma_fxm_in(m.m13 as int, t.w as int, term);
    lemma_fxm_in(m.m20 as int, t.x as int, term);
    lemma_fxm_in(m.m21 as int, t.y as int, term);
    lemma_fxm_in(m.m22 as int, t.z as int, term);
    lemma_fxm_in(m.m23 as int, t.w as int, term);
    lemma_fxm_in(m.m30 as int, t.x as int, term);
    lemma_fxm_in(m.m31 as int, t.y as int, term);
    lemma_fxm_in(m.m32 as int, t.z as int, term);
    lemma_fxm_in(m.m33 as int, t.w as int, term);
}

/// Bounds for the four first-row terms of the determinant expansion.
proof fn lemma_det_terms(m: Matrix, c0: int, c1: int, c2: int, c3: int)
    requires
        mat_bounded(m, MAT_MAX as int),
        -COF_MAX <= c0 <= COF_MAX,
        -COF_MAX <= c1 <= COF_MAX,
        -COF_MAX <= c2 <= COF_MAX,
        -COF_MAX <= c3 <= COF_MAX,
    ensures
        -DET_TERM <= fxm(m.m00 as int, c0) <= DET_TERM,
        -DET_TERM <= fxm(m.m01 as int, c1) <= DET_TERM,
        -DET_TERM <= fxm(m.m02 as int, c2) <= DET_TERM,
        -DET_TERM <= fxm(m.m03 as int, c3) <= DET_TERM,
{
    assert forall|a: int, b: int|
        -(MAT_MAX as int) <= a <= MAT_MAX as int && -(COF_MAX as int) <= b
            <= COF_MAX as int implies -(FX_ONE * DET_TERM) <= #[trigger] (a * b) <= FX_ONE
        * DET_TERM by {
        assert(-(FX_ONE * DET_TERM) <= a * b <= FX_ONE * DET_TERM) by (nonlinear_arith)
            requires
                -(MAT_MAX as int) <= a <= MAT_MAX as int,
                -(COF_MAX as int) <= b <= COF_MAX as int,
                MAT_MAX * COF_MAX <= FX_ONE * DET_TERM,
        ;
    }
    lemma_fxm_in(m.m00 as int, c0, DET_TERM as int);
    lemma_fxm_in(m.m01 as int, c1, DET_TERM as int);
    lemma_fxm_in(m.m02 as int, c2, DET_TERM as int);
    lemma_fxm_in(m.m03 as int, c3, DET_TERM as int);
}

} // verus!
