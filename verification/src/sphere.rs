//! The canonical unit sphere: radius 1, centered at the local origin.

use crate::fixed::{
    fx_div, fx_mul, fx_sqrt, fxd, fxm, isqrt_s, lemma_fxd_ordered, lemma_fxm_mag, FX_MUL_MAX,
    FX_ONE, FX_PROD_MAX,
};
use crate::intersection::{Intersection, Intersections};
use crate::material::{default_material_s, Material};
use crate::matrix::{identity_s, Matrix, LOCAL_MAX, NORMAL_MAX, RAY_MAX};
use crate::ray::Ray;
use crate::shape::Shape;
use crate::tuple::{
    dot_s, lemma_normalized_magnitude, mag_s, magsq_s, point, tup_bounded, Tuple, SQ_MAX,
};
use crate::utils::approx_eq_s;
use vstd::prelude::*;

verus! {

/// Bound on the squared half-coefficient term of the discriminant (2^96).
const BB_MAX: i128 = 79228162514264337593543950336;

/// Bound on the product of the quadratic's a and c coefficients (2^95).
const AC_MAX: i128 = 39614081257132168796771975168;

#[derive(Clone, Copy, Debug, PartialEq, Eq, Structural)]
pub struct Sphere {
    pub center: Tuple,
    pub radius: i128,
    pub transform: Matrix,
    pub material: Material,
}

/// The ray parameters at which `r` meets the unit sphere, from the quadratic
/// `|O + tD|^2 = 1`: none when the discriminant is negative (or the direction
/// is degenerate), otherwise both roots in ascending order, kept even when
/// equal.
pub open spec fn sphere_ts(center: Tuple, r: Ray) -> Seq<int> {
    let sx = r.origin.x - center.x;
    let sy = r.origin.y - center.y;
    let sz = r.origin.z - center.z;
    let sw = r.origin.w - center.w;
    let a = dot_s(r.direction, r.direction);
    let b = 2 * (fxm(r.direction.x as int, sx) + fxm(r.direction.y as int, sy) + fxm(
        r.direction.z as int,
        sz,
    ) + fxm(r.direction.w as int, sw));
    let c = fxm(sx, sx) + fxm(sy, sy) + fxm(sz, sz) + fxm(sw, sw) - FX_ONE;
    let disc = fxm(b, b) - 4 * fxm(a, c);
    if a > 0 && disc >= 0 {
        let sq = isqrt_s(disc * FX_ONE);
        seq![fxd(-b - sq, 2 * a), fxd(-b + sq, 2 * a)]
    } else {
        Seq::empty()
    }
}

impl Sphere {
    pub fn new(center: Tuple, radius: i128, transform: Matrix, material: Material) -> (r: Sphere)
        ensures
            r == (Sphere { center, radius, transform, material }),
    {
        Sphere { center, radius, transform, material }
    }
}

impl Shape for Sphere {
    open spec fn transform_spec(&self) -> Matrix {
        self.transform
    }

    open spec fn shape_wf(&self) -> bool {
        tup_bounded(self.center, RAY_MAX as int)
    }

    open spec fn local_ts(&self, r: Ray) -> Seq<int> {
        sphere_ts(self.center, r)
    }

    open spec fn local_normal_s(&self, p: Tuple) -> Tuple {
        Tuple { x: p.x, y: p.y, z: p.z, w: 0 }
    }

    fn set_transform(&mut self, m: Matrix) {
        self.transform = m;
    }

    fn get_transform(&self) -> (m: Matrix) {
        self.transform
    }

    /// Solves the quadratic for the ray in object space and records both
    /// roots, even when equal.  A ray whose direction is too short to square
    /// meaningfully (a degenerate direction) yields no intersections.
    #[verifier::rlimit(60)]
    fn local_intersect(&self, local_ray: Ray) -> (xs: Intersections<Sphere>) {
        let sphere_to_ray = local_ray.origin.sub(&self.center);
        let a = local_ray.direction.dot(&local_ray.direction);
        let b = 2 * local_ray.direction.dot(&sphere_to_ray);
        let c = sphere_to_ray.dot(&sphere_to_ray) - FX_ONE;
        proof {
            lemma_fxm_mag(b as int, b as int, FX_MUL_MAX as int, FX_MUL_MAX as int, BB_MAX as int);
            lemma_fxm_mag(
                a as int,
                c as int,
                SQ_MAX as int,
                SQ_MAX + FX_ONE,
                AC_MAX as int,
            );
        }
        let disc = fx_mul(b, b) - 4 * fx_mul(a, c);
        let mut xs: Intersections<Sphere> = Intersections::new();
        if a > 0 && disc >= 0 {
            let sq = fx_sqrt(disc * FX_ONE);
            proof {
                assert(sq < 9223372036854775808i128) by (nonlinear_arith)
                    requires
                        0 <= sq,
                        sq * sq <= disc * FX_ONE,
                        disc * FX_ONE < FX_PROD_MAX,
                        9223372036854775808i128 * 9223372036854775808i128 == FX_PROD_MAX,
                ;
                lemma_fxd_ordered(-(b as int) - sq, -(b as int) + sq, 2 * a);
            }
            let t1 = fx_div(0 - b - sq, 2 * a);
            let t2 = fx_div(0 - b + sq, 2 * a);
            let i1 = Intersection::new(t1, *self);
            xs.push(i1);
            proof {
                assert(xs@ =~= seq![i1]);
            }
            let i2 = Intersection::new(t2, *self);
            let ghost s1 = xs@;
            xs.push(i2);
            proof {
                let s2 = xs@;
                let k = choose|k: int|
                    {
                        &&& 0 <= k <= s1.len()
                        &&& s2 == s1.insert(k, i2)
                        &&& forall|i: int| 0 <= i < k ==> #[trigger] s1[i].t <= i2.t
                        &&& forall|i: int| k <= i < s1.len() ==> #[trigger] s1[i].t > i2.t
                    };
                if k == 0 {
                    assert(s1[0].t > i2.t);
                    assert(false);
                }
                assert(s2 =~= seq![i1, i2]);
            }
        }
        xs
    }

    /// The vector from the sphere's local center (the origin) to `p`.
    fn local_normal_at(&self, p: Tuple) -> (n: Tuple) {
        Tuple { x: p.x, y: p.y, z: p.z, w: 0 }
    }

    proof fn lemma_local_normal_bounded(&self, p: Tuple) {
        assert(LOCAL_MAX <= NORMAL_MAX);
    }
}

/// For every point on the unit sphere (in fact for any point whose distance
/// from the local origin is at least 1/16), the sphere's local normal, once
/// normalized, has magnitude within the tolerance of 1.0.
pub proof fn lemma_sphere_normal_unit(s: Sphere, p: Tuple)
    requires
        magsq_s(p) >= 281474976710656,  // squared distance at least (1/16)^2
    ensures
        ({
            let n = s.local_normal_s(p);
            let m = mag_s(n);
            let nx = fxd(n.x as int, m);
            let ny = fxd(n.y as int, m);
            let nz = fxd(n.z as int, m);
            approx_eq_s(isqrt_s(nx * nx + ny * ny + nz * nz), FX_ONE as int)
        }),
{
    let n = s.local_normal_s(p);
    assert(magsq_s(n) == magsq_s(p));
    lemma_normalized_magnitude(n);
}

impl Default for Sphere {
    /// A sphere centered at the origin, radius 1, identity transform, default
    /// material.
    fn default() -> (r: Sphere)
        ensures
            r == (Sphere {
                center: Tuple { x: 0, y: 0, z: 0, w: FX_ONE },
                radius: FX_ONE,
                transform: identity_s(),
                material: default_material_s(),
            }),
    {
        Sphere::new(point(0, 0, 0), FX_ONE, Matrix::I(), Material::default())
    }
}

} // verus!
