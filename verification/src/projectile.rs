//! A small ballistic toy built on the tuple algebra: a projectile under
//! gravity and wind, advanced one step at a time.

use crate::fixed::FX_VAL_MAX;
use crate::tuple::{tup_bounded, Tuple};
use vstd::prelude::*;

verus! {

#[derive(Clone, Copy, Debug, PartialEq, Eq, Structural)]
pub struct Projectile {
    pub position: Tuple,
    pub velocity: Tuple,
}

#[derive(Clone, Copy, Debug, PartialEq, Eq, Structural)]
pub struct Environment {
    pub gravity: Tuple,
    pub wind: Tuple,
    pub projectile: Projectile,
}

impl Environment {
    /// One time step: the position advances by the velocity, and the velocity
    /// gains the gravity and the wind.
    pub fn tick(&mut self)
        requires
            tup_bounded(old(self).projectile.position, FX_VAL_MAX as int),
            tup_bounded(old(self).projectile.velocity, FX_VAL_MAX as int),
            tup_bounded(old(self).gravity, FX_VAL_MAX as int),
            tup_bounded(old(self).wind, FX_VAL_MAX as int),
        ensures
            final(self).projectile.position.x == old(self).projectile.position.x + old(
                self,
            ).projectile.velocity.x,
            final(self).projectile.position.y == old(self).projectile.position.y + old(
                self,
            ).projectile.velocity.y,
            final(self).projectile.position.z == old(self).projectile.position.z + old(
                self,
            ).projectile.velocity.z,
            final(self).projectile.position.w == old(self).projectile.position.w + old(
                self,
            ).projectile.velocity.w,
            final(self).projectile.velocity.x == old(self).projectile.velocity.x + old(
                self,
            ).gravity.x + old(self).wind.x,
            final(self).projectile.velocity.y == old(self).projectile.velocity.y + old(
                self,
            ).gravity.y + old(self).wind.y,
            final(self).projectile.velocity.z == old(self).projectile.velocity.z + old(
                self,
            ).gravity.z + old(self).wind.z,
            final(self).projectile.velocity.w == old(self).projectile.velocity.w + old(
                self,
            ).gravity.w + old(self).wind.w,
            final(self).gravity == old(self).gravity,
            final(self).wind == old(self).wind,
    {
        let new_position = self.projectile.position.add(&self.projectile.velocity);
        let new_velocity = self.projectile.velocity.add(&self.gravity).add(&self.wind);
        self.projectile.position = new_position;
        self.projectile.velocity = new_velocity;
    }
}

} // verus!
