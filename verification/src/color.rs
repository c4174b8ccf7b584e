//! RGB colors with fixed-point components.
//!
//! Components may leave `[0, 1]`: the shading layer never clamps.

use crate::fixed::{fx_mul, fxm, FX_DIV_MAX, FX_MUL_MAX, FX_VAL_MAX};
use crate::utils::{approx_eq_s, Compare};
use vstd::prelude::*;

verus! {

#[derive(Clone, Copy, Debug, PartialEq, Eq, Structural)]
pub struct Color {
    pub red: i128,
    pub green: i128,
    pub blue: i128,
}

/// All three components within `b` in magnitude.
pub open spec fn color_bounded(c: Color, b: int) -> bool {
    &&& -b <= c.red <= b
    &&& -b <= c.green <= b
    &&& -b <= c.blue <= b
}

impl Color {
    pub fn new(red: i128, green: i128, blue: i128) -> (r: Color)
        ensures
            r == (Color { red, green, blue }),
    {
        Color { red, green, blue }
    }

    /// The color with every component zero.
    pub fn black() -> (r: Color)
        ensures
            r == (Color { red: 0, green: 0, blue: 0 }),
    {
        Color { red: 0, green: 0, blue: 0 }
    }

    /// Component-wise sum.
    pub fn add(&self, o: &Color) -> (r: Color)
        requires
            color_bounded(*self, FX_DIV_MAX as int),
            color_bounded(*o, FX_DIV_MAX as int),
        ensures
            r.red == self.red + o.red,
            r.green == self.green + o.green,
            r.blue == self.blue + o.blue,
    {
        Color { red: self.red + o.red, green: self.green + o.green, blue: self.blue + o.blue }
    }

    /// Component-wise (Hadamard) product of two colors.
    pub fn mul(&self, o: &Color) -> (r: Color)
        requires
            color_bounded(*self, FX_MUL_MAX as int),
            color_bounded(*o, FX_MUL_MAX as int),
        ensures
            r.red == fxm(self.red as int, o.red as int),
            r.green == fxm(self.green as int, o.green as int),
            r.blue == fxm(self.blue as int, o.blue as int),
            color_bounded(r, FX_VAL_MAX as int),
    {
        Color {
            red: fx_mul(self.red, o.red),
            green: fx_mul(self.green, o.green),
            blue: fx_mul(self.blue, o.blue),
        }
    }

    /// Scales every component by the fixed-point scalar `s`.
    pub fn scale(&self, s: i128) -> (r: Color)
        requires
            color_bounded(*self, FX_MUL_MAX as int),
            -FX_MUL_MAX <= s <= FX_MUL_MAX,
        ensures
            r.red == fxm(self.red as int, s as int),
            r.green == fxm(self.green as int, s as int),
            r.blue == fxm(self.blue as int, s as int),
            color_bounded(r, FX_VAL_MAX as int),
    {
        Color {
            red: fx_mul(self.red, s),
            green: fx_mul(self.green, s),
            blue: fx_mul(self.blue, s),
        }
    }

    /// Component-wise comparison within the tolerance `EPSILON`.
    pub fn approx_eq(&self, o: &Color) -> (r: bool)
        ensures
            r == (approx_eq_s(self.red as int, o.red as int) && approx_eq_s(
                self.green as int,
                o.green as int,
            ) && approx_eq_s(self.blue as int, o.blue as int)),
    {
        self.red.eq(o.red) && self.green.eq(o.green) && self.blue.eq(o.blue)
    }
}

} // verus!
