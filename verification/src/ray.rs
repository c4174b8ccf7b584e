//! Rays: an origin point and a direction vector, immutable once built.

use crate::fixed::{fxm, FX_DIV_MAX, FX_MUL_MAX};
use crate::matrix::{
    mat_bounded, mat_vec_w, mat_vec_x, mat_vec_y, mat_vec_z, Matrix, LOCAL_MAX, MATMUL_MAX,
    MAT_MAX, RAY_MAX,
};
use crate::tuple::{tup_bounded, Tuple};
use vstd::prelude::*;

verus! {

#[derive(Clone, Copy, Debug, PartialEq, Eq, Structural)]
pub struct Ray {
    pub origin: Tuple,
    pub direction: Tuple,
}

/// Both the origin and the direction within `b` in magnitude.
pub open spec fn ray_bounded(r: Ray, b: int) -> bool {
    tup_bounded(r.origin, b) && tup_bounded(r.direction, b)
}

impl Ray {
    pub fn new(origin: Tuple, direction: Tuple) -> (r: Ray)
        ensures
            r == (Ray { origin, direction }),
    {
        Ray { origin, direction }
    }

    /// The point `origin + direction * t`.
    pub fn position(&self, t: i128) -> (r: Tuple)
        requires
            tup_bounded(self.origin, FX_DIV_MAX as int),
            tup_bounded(self.direction, FX_MUL_MAX as int),
            -FX_MUL_MAX <= t <= FX_MUL_MAX,
        ensures
            r.x == self.origin.x + fxm(self.direction.x as int, t as int),
            r.y == self.origin.y + fxm(self.direction.y as int, t as int),
            r.z == self.origin.z + fxm(self.direction.z as int, t as int),
            r.w == self.origin.w + fxm(self.direction.w as int, t as int),
    {
        let d = self.direction.scale(t);
        self.origin.add(&d)
    }

    /// Applies the transform `m` to both the origin and the direction.
    pub fn transform(&self, m: &Matrix) -> (r: Ray)
        requires
            mat_bounded(*m, MATMUL_MAX as int),
            ray_bounded(*self, MATMUL_MAX as int),
        ensures
            r.origin.x == mat_vec_x(*m, self.origin),
            r.origin.y == mat_vec_y(*m, self.origin),
            r.origin.z == mat_vec_z(*m, self.origin),
            r.origin.w == mat_vec_w(*m, self.origin),
            r.direction.x == mat_vec_x(*m, self.direction),
            r.direction.y == mat_vec_y(*m, self.direction),
            r.direction.z == mat_vec_z(*m, self.direction),
            r.direction.w == mat_vec_w(*m, self.direction),
            (mat_bounded(*m, MAT_MAX as int) && ray_bounded(*self, RAY_MAX as int)) ==> ray_bounded(
                r,
                LOCAL_MAX as int,
            ),
    {
        Ray { origin: m.mul_tuple(&self.origin), direction: m.mul_tuple(&self.direction) }
    }
}

} // verus!
