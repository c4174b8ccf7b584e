//! Approximate scalar comparison.
//!
//! Fixed-point results carry rounding noise, so equality of scalars is always
//! judged against the tolerance `EPSILON`, never exactly.

use crate::fixed::EPSILON;
use vstd::prelude::*;

verus! {

/// Two scalars are approximately equal when they differ by less than `EPSILON`.
pub open spec fn approx_eq_s(a: int, b: int) -> bool {
    -(EPSILON as int) < a - b < EPSILON as int
}

/// Tolerance-based comparison for fixed-point scalars.
pub trait Compare {
    /// The mathematical value of the scalar.
    spec fn val(self) -> int;

    /// True when the two scalars differ by less than the tolerance.
    fn eq(self, other: i128) -> (r: bool)
        ensures
            r == approx_eq_s(self.val(), other as int),
    ;

    /// True when the two scalars differ by at least the tolerance.
    fn neq(self, other: i128) -> (r: bool)
        ensures
            r == !approx_eq_s(self.val(), other as int),
    ;
}

impl Compare for i128 {
    open spec fn val(self) -> int {
        self as int
    }

    fn eq(self, other: i128) -> (r: bool) {
        let d: i128 = if self >= other {
            if other >= 0 || self <= other + i128::MAX {
                self - other
            } else {
                return false;
            }
        } else {
            if self >= 0 || other <= self + i128::MAX {
                other - self
            } else {
                return false;
            }
        };
        d < EPSILON
    }

    fn neq(self, other: i128) -> (r: bool) {
        !self.eq(other)
    }
}

} // verus!
