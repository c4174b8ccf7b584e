//! A single point light.

use crate::color::Color;
use crate::tuple::Tuple;
use vstd::prelude::*;

verus! {

/// A point light: a position and an intensity, with no attenuation.
#[derive(Clone, Copy, Debug, PartialEq, Eq, Structural)]
pub struct Light {
    pub position: Tuple,
    pub intensity: Color,
}

impl Light {
    pub fn new(position: Tuple, intensity: Color) -> (r: Light)
        ensures
            r == (Light { position, intensity }),
    {
        Light { position, intensity }
    }
}

} // verus!
