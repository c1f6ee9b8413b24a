//! Rays: a point of origin and a direction, which need not have length one.

use crate::scalar::{Double, ZERO};
use crate::vec3::Vec3;
use vstd::prelude::*;

verus! {

/// The points `origin + t * direction`.
#[derive(Clone, Copy, PartialEq, Eq, Structural, Debug)]
pub struct Ray {
    pub origin: Vec3,
    pub direction: Vec3,
}

impl Ray {
    /// The point at the parameter `t`: the origin plus `t` times the
    /// direction.
    pub open spec fn spec_at(&self, t: Double) -> Vec3 {
        self.origin.add(self.direction.scale(t))
    }

    /// The ray from `origin` in `direction`.
    pub fn new(origin: Vec3, direction: Vec3) -> (r: Ray)
        ensures
            r == (Ray { origin, direction }),
    {
        Ray { origin, direction }
    }

    /// Where the ray starts.
    pub fn origin(&self) -> (r: &Vec3)
        ensures
            *r == self.origin,
    {
        &self.origin
    }

    /// Where the ray goes.
    pub fn direction(&self) -> (r: &Vec3)
        ensures
            *r == self.direction,
    {
        &self.direction
    }

    /// The point at the parameter `t`.
    #[verifier::when_used_as_spec(spec_at)]
    pub fn at(&self, t: Double) -> (r: Vec3)
        ensures
            r == self.spec_at(t),
    {
        self.origin.add(self.direction.scale(t))
    }
}

impl Default for Ray {
    /// The ray from the zero point with the zero direction.
    fn default() -> (r: Self)
        ensures
            r == (Ray {
                origin: Vec3::from_bits(ZERO, ZERO, ZERO),
                direction: Vec3::from_bits(ZERO, ZERO, ZERO),
            }),
    {
        Ray::new(Vec3::from_bits(ZERO, ZERO, ZERO), Vec3::from_bits(ZERO, ZERO, ZERO))
    }
}

} // verus!
