//! The canonical plane: the local xz plane through the origin.

use crate::fixed::{fx_div, fxd, EPSILON, FX_ONE};
use crate::intersection::{Intersection, Intersections};
use crate::matrix::{identity_s, Matrix, LOCAL_MAX, NORMAL_MAX};
use crate::ray::Ray;
use crate::shape::Shape;
use crate::tuple::Tuple;
use vstd::prelude::*;

verus! {

#[derive(Clone, Copy, Debug, PartialEq, Eq, Structural)]
pub struct Plane {
    pub transform: Matrix,
}

/// The ray parameters at which `r` meets the local xz plane: empty when the
/// direction's y component is within tolerance of zero (the ray is parallel,
/// including one lying in the plane), else the single root `-origin.y / dir.y`.
pub open spec fn plane_ts(r: Ray) -> Seq<int> {
    if -(EPSILON as int) < r.direction.y < EPSILON as int {
        Seq::empty()
    } else {
        seq![fxd(-r.origin.y, r.direction.y as int)]
    }
}

impl Plane {
    pub fn new(transform: Matrix) -> (r: Plane)
        ensures
            r == (Plane { transform }),
    {
        Plane { transform }
    }
}

impl Shape for Plane {
    open spec fn transform_spec(&self) -> Matrix {
        self.transform
    }

    open spec fn shape_wf(&self) -> bool {
        true
    }

    open spec fn local_ts(&self, r: Ray) -> Seq<int> {
        plane_ts(r)
    }

    open spec fn local_normal_s(&self, p: Tuple) -> Tuple {
        Tuple { x: 0, y: FX_ONE, z: 0, w: 0 }
    }

    fn set_transform(&mut self, m: Matrix) {
        self.transform = m;
    }

    fn get_transform(&self) -> (m: Matrix) {
        self.transform
    }

    /// A ray parallel to the plane (|direction.y| below tolerance) yields no
    /// intersection at all; any other ray yields exactly one.
    fn local_intersect(&self, local_ray: Ray) -> (xs: Intersections<Plane>) {
        let mut xs: Intersections<Plane> = Intersections::new();
        let dy = local_ray.direction.y;
        if -EPSILON < dy && dy < EPSILON {
            return xs;
        }
        let t = fx_div(0 - local_ray.origin.y, dy);
        let i1 = Intersection::new(t, *self);
        xs.push(i1);
        proof {
            assert(xs@ =~= seq![i1]);
        }
        xs
    }

    /// The plane's normal is the constant +y vector, whatever the point.
    fn local_normal_at(&self, p: Tuple) -> (n: Tuple) {
        Tuple { x: 0, y: FX_ONE, z: 0, w: 0 }
    }

    proof fn lemma_local_normal_bounded(&self, p: Tuple) {
        assert(FX_ONE <= NORMAL_MAX);
    }
}

/// A ray parallel to the plane (the direction's y component within tolerance
/// of zero, including a ray lying in the plane) always yields an empty
/// intersection set.
pub proof fn lemma_parallel_ray_misses_plane(p: Plane, r: Ray)
    requires
        -(EPSILON as int) < r.direction.y < EPSILON as int,
    ensures
        p.local_ts(r).len() == 0,
{
}

impl Default for Plane {
    fn default() -> (r: Plane)
        ensures
            r == (Plane { transform: identity_s() }),
    {
        Plane::new(Matrix::I())
    }
}

} // verus!
