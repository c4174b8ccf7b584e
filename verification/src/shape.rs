//! The shape capability: transform handling, transform-aware intersection and
//! normal computation built once on top of each primitive's local operations.

use crate::fixed::fxd;
use crate::intersection::Intersections;
use crate::matrix::{
    inv_s, mat_bounded, mat_vec_w, mat_vec_x, mat_vec_y, mat_vec_z, singular_s, transpose_s,
    Matrix, LOCAL_MAX, MAT_MAX, NORMAL_MAX, RAY_MAX,
};
use crate::ray::{ray_bounded, Ray};
use crate::tuple::{mag_s, magsq_s, tup_bounded, Tuple, SQ_MAX};
use vstd::prelude::*;

verus! {

/// The tuple `m` applied to `p`, as a value.
pub open spec fn apply_s(m: Matrix, p: Tuple) -> Tuple {
    Tuple {
        x: mat_vec_x(m, p) as i128,
        y: mat_vec_y(m, p) as i128,
        z: mat_vec_z(m, p) as i128,
        w: mat_vec_w(m, p) as i128,
    }
}

/// The ray `r` carried into the object space of a shape whose inverse
/// transform is `inv`.
pub open spec fn local_ray_s(inv: Matrix, r: Ray) -> Ray {
    Ray { origin: apply_s(inv, r.origin), direction: apply_s(inv, r.direction) }
}

/// The not-yet-normalized world-space normal: the local normal `ln` carried
/// back by the transpose of the inverse transform `inv`, with w forced to
/// zero.
pub open spec fn world_normal_from(inv: Matrix, ln: Tuple) -> Tuple {
    let tinv = transpose_s(inv);
    Tuple {
        x: mat_vec_x(tinv, ln) as i128,
        y: mat_vec_y(tinv, ln) as i128,
        z: mat_vec_z(tinv, ln) as i128,
        w: 0,
    }
}

/// A capability implemented by every primitive: a transform, a local-space
/// intersection routine and a local-space normal.  The world-space `intersect`
/// and `normal_at` are provided once, in terms of those.
pub trait Shape: Sized + Copy {
    /// The shape's transform, as stored.
    spec fn transform_spec(&self) -> Matrix;

    /// The shape's own well-formedness (bounds on its stored geometry).
    spec fn shape_wf(&self) -> bool;

    /// The ray parameters returned by `local_intersect`, in ascending order.
    spec fn local_ts(&self, r: Ray) -> Seq<int>;

    /// The local-space normal as a value.
    spec fn local_normal_s(&self, p: Tuple) -> Tuple;

    fn set_transform(&mut self, m: Matrix)
        ensures
            final(self).transform_spec() == m,
            final(self).shape_wf() == old(self).shape_wf(),
    ;

    fn get_transform(&self) -> (m: Matrix)
        ensures
            m == self.transform_spec(),
    ;

    /// Primitive-specific intersection with a ray already in object space.
    fn local_intersect(&self, local_ray: Ray) -> (xs: Intersections<Self>)
        requires
            self.shape_wf(),
            ray_bounded(local_ray, LOCAL_MAX as int),
        ensures
            xs.wf(),
            xs@.len() == self.local_ts(local_ray).len(),
            forall|i: int|
                0 <= i < xs@.len() ==> (#[trigger] xs@[i]).t == self.local_ts(local_ray)[i]
                    && xs@[i].object == *self,
    ;

    /// Primitive-specific normal for a point already in object space.
    fn local_normal_at(&self, p: Tuple) -> (n: Tuple)
        ensures
            n == self.local_normal_s(p),
    ;

    /// Every local normal of a bounded local point is bounded.
    proof fn lemma_local_normal_bounded(&self, p: Tuple)
        requires
            tup_bounded(p, LOCAL_MAX as int),
        ensures
            tup_bounded(self.local_normal_s(p), NORMAL_MAX as int),
    ;

    /// Transform-aware intersection: carries `ray` into object space with the
    /// inverse of the shape's transform, then delegates to `local_intersect`.
    /// `None` reports a non-invertible transform.
    fn intersect(&self, ray: Ray) -> (r: Option<Intersections<Self>>)
        requires
            self.shape_wf(),
            mat_bounded(self.transform_spec(), MAT_MAX as int),
            ray_bounded(ray, RAY_MAX as int),
            !singular_s(self.transform_spec()) ==> mat_bounded(
                inv_s(self.transform_spec()),
                MAT_MAX as int,
            ),
        ensures
            r is None <==> singular_s(self.transform_spec()),
            r matches Some(xs) ==> ({
                let lr = local_ray_s(inv_s(self.transform_spec()), ray);
                &&& xs.wf()
                &&& xs@.len() == self.local_ts(lr).len()
                &&& forall|i: int|
                    0 <= i < xs@.len() ==> (#[trigger] xs@[i]).t == self.local_ts(lr)[i]
                        && xs@[i].object == *self
            }),
    {
        let m = self.get_transform();
        match m.inverse() {
            None => None,
            Some(inv) => {
                let local_ray = ray.transform(&inv);
                proof {
                    assert(local_ray == local_ray_s(inv_s(self.transform_spec()), ray));
                }
                Some(self.local_intersect(local_ray))
            },
        }
    }

    /// Transform-aware normal: carries `p` into object space, asks the
    /// primitive for its local normal, carries it back with the transpose of
    /// the inverse transform, forces w to zero and normalizes.  `None`
    /// reports a non-invertible transform.
    fn normal_at(&self, p: Tuple) -> (r: Option<Tuple>)
        requires
            self.shape_wf(),
            mat_bounded(self.transform_spec(), MAT_MAX as int),
            tup_bounded(p, RAY_MAX as int),
            !singular_s(self.transform_spec()) ==> mat_bounded(
                inv_s(self.transform_spec()),
                MAT_MAX as int,
            ),
            !singular_s(self.transform_spec()) ==> ({
                let inv = inv_s(self.transform_spec());
                magsq_s(world_normal_from(inv, self.local_normal_s(apply_s(inv, p)))) >= 1
            }),
        ensures
            r is None <==> singular_s(self.transform_spec()),
            r matches Some(n) ==> ({
                let inv = inv_s(self.transform_spec());
                let wn = world_normal_from(inv, self.local_normal_s(apply_s(inv, p)));
                &&& n.x == fxd(wn.x as int, mag_s(wn))
                &&& n.y == fxd(wn.y as int, mag_s(wn))
                &&& n.z == fxd(wn.z as int, mag_s(wn))
                &&& n.w == 0
            }),
    {
        let m = self.get_transform();
        match m.inverse() {
            None => None,
            Some(inv) => {
                let local_point = inv.mul_tuple(&p);
                proof {
                    assert(local_point == apply_s(inv_s(self.transform_spec()), p));
                }
                let local_normal = self.local_normal_at(local_point);
                proof {
                    self.lemma_local_normal_bounded(local_point);
                }
                let tinv = inv.transpose();
                let wn_raw = tinv.mul_tuple(&local_normal);
                let world_normal = Tuple { x: wn_raw.x, y: wn_raw.y, z: wn_raw.z, w: 0 };
                proof {
                    assert(world_normal == world_normal_from(
                        inv_s(self.transform_spec()),
                        self.local_normal_s(apply_s(inv_s(self.transform_spec()), p)),
                    ));
                }
                Some(world_normal.normalize())
            },
        }
    }
}

} // verus!
