//! Boxes whose faces lie along the axes.

use crate::ray::Ray;
use crate::scalar::{Double, ONE, ZERO};
use crate::vec3::Vec3;
use vstd::prelude::*;

verus! {

/// The box between the corners `minimum` and `maximum`.
#[derive(Clone, Copy, PartialEq, Eq, Structural, Debug)]
pub struct Aabb {
    pub minimum: Vec3,
    pub maximum: Vec3,
}

impl Aabb {
    /// The parameter at which `ray` enters the slab of the box on `axis`.
    pub open spec fn slab_entry(self, ray: Ray, axis: usize) -> Double {
        let inv = Double { bits: ONE }.div(ray.direction.get(axis));
        let t0 = self.minimum.get(axis).sub(ray.origin.get(axis)).mul(inv);
        let t1 = self.maximum.get(axis).sub(ray.origin.get(axis)).mul(inv);
        if inv.lt(Double { bits: ZERO }) {
            t1
        } else {
            t0
        }
    }

    /// The parameter at which `ray` leaves the slab of the box on `axis`.
    pub open spec fn slab_exit(self, ray: Ray, axis: usize) -> Double {
        let inv = Double { bits: ONE }.div(ray.direction.get(axis));
        let t0 = self.minimum.get(axis).sub(ray.origin.get(axis)).mul(inv);
        let t1 = self.maximum.get(axis).sub(ray.origin.get(axis)).mul(inv);
        if inv.lt(Double { bits: ZERO }) {
            t0
        } else {
            t1
        }
    }

    /// On `axis`, the stretch of `ray` inside the slab, cut to the
    /// parameters from `t_min` to `t_max`, is not empty.
    pub open spec fn slab_hit(self, ray: Ray, axis: usize, t_min: Double, t_max: Double) -> bool {
        let entry = self.slab_entry(ray, axis);
        let exit = self.slab_exit(ray, axis);
        let low = if entry.gt(t_min) {
            entry
        } else {
            t_min
        };
        let high = if exit.lt(t_max) {
            exit
        } else {
            t_max
        };
        !high.le(low)
    }

    /// Each of the three slabs, taken by itself, is hit between `t_min` and
    /// `t_max`.
    pub open spec fn spec_hit(&self, ray: &Ray, t_min: Double, t_max: Double) -> bool {
        self.slab_hit(*ray, 0, t_min, t_max) && self.slab_hit(*ray, 1, t_min, t_max)
            && self.slab_hit(*ray, 2, t_min, t_max)
    }

    /// The box between two corners.
    pub fn new(minimum: Vec3, maximum: Vec3) -> (r: Self)
        ensures
            r == (Aabb { minimum, maximum }),
    {
        Aabb { minimum, maximum }
    }

    /// The corner of the least coordinates.
    pub fn minimum(&self) -> (r: Vec3)
        ensures
            r == self.minimum,
    {
        self.minimum
    }

    /// The corner of the greatest coordinates.
    pub fn maximum(&self) -> (r: Vec3)
        ensures
            r == self.maximum,
    {
        self.maximum
    }

    /// Whether `ray` passes each slab of the box between `t_min` and
    /// `t_max`.
    #[verifier::when_used_as_spec(spec_hit)]
    pub fn hit(&self, ray: &Ray, t_min: Double, t_max: Double) -> (r: bool)
        ensures
            r == self.spec_hit(ray, t_min, t_max),
    {
        let mut a: usize = 0;
        while a < 3
            invariant
                a <= 3,
                forall|k: usize| k < a ==> self.slab_hit(*ray, k, t_min, t_max),
            decreases 3 - a,
        {
            let inv_d = Double::from_bits(ONE).div(ray.direction().get(a));
            let mut t0 = self.minimum.get(a).sub(ray.origin().get(a)).mul(inv_d);
            let mut t1 = self.maximum.get(a).sub(ray.origin().get(a)).mul(inv_d);
            if inv_d.lt(Double::from_bits(ZERO)) {
                let temp = t0;
                t0 = t1;
                t1 = temp;
            }
            let low = if t0.gt(t_min) {
                t0
            } else {
                t_min
            };
            let high = if t1.lt(t_max) {
                t1
            } else {
                t_max
            };
            if high.le(low) {
                assert(!self.slab_hit(*ray, a, t_min, t_max));
                return false;
            }
            a += 1;
        }
        true
    }
}

impl Default for Aabb {
    /// The box that is the zero point.
    fn default() -> (r: Self)
        ensures
            r == (Aabb {
                minimum: Vec3::from_bits(ZERO, ZERO, ZERO),
                maximum: Vec3::from_bits(ZERO, ZERO, ZERO),
            }),
    {
        Aabb {
            minimum: Vec3::from_bits(ZERO, ZERO, ZERO),
            maximum: Vec3::from_bits(ZERO, ZERO, ZERO),
        }
    }
}

/// `r` may be the least box around `box0` and `box1`: each component of its
/// low corner is a minimum of theirs, each of its high corner a maximum.
pub open spec fn surrounds(r: Aabb, box0: Aabb, box1: Aabb) -> bool {
    &&& r.minimum.x.is_min_of(box0.minimum.x, box1.minimum.x)
    &&& r.minimum.y.is_min_of(box0.minimum.y, box1.minimum.y)
    &&& r.minimum.z.is_min_of(box0.minimum.z, box1.minimum.z)
    &&& r.maximum.x.is_max_of(box0.maximum.x, box1.maximum.x)
    &&& r.maximum.y.is_max_of(box0.maximum.y, box1.maximum.y)
    &&& r.maximum.z.is_max_of(box0.maximum.z, box1.maximum.z)
}

/// The box of the sphere around `center`: from the center less the radius on
/// every axis to the center plus the radius.
pub open spec fn spec_bounding_box_sphere(center: Vec3, radius: Double) -> Aabb {
    let r = Vec3 { x: radius, y: radius, z: radius };
    Aabb { minimum: center.sub(r), maximum: center.add(r) }
}

/// The box of a sphere.
#[verifier::when_used_as_spec(spec_bounding_box_sphere)]
pub fn bounding_box_sphere(center: Vec3, radius: Double) -> (r: Aabb)
    ensures
        r == spec_bounding_box_sphere(center, radius),
{
    let radius = Vec3::new(radius, radius, radius);
    Aabb::new(center.sub(radius), center.add(radius))
}

/// The least box around two boxes.
pub fn surrounding_box(box0: Aabb, box1: Aabb) -> (r: Aabb)
    ensures
        surrounds(r, box0, box1),
{
    let small = Vec3::new(
        box0.minimum().x.min(box1.minimum().x),
        box0.minimum().y.min(box1.minimum().y),
        box0.minimum().z.min(box1.minimum().z),
    );
    let big = Vec3::new(
        box0.maximum().x.max(box1.maximum().x),
        box0.maximum().y.max(box1.maximum().y),
        box0.maximum().z.max(box1.maximum().z),
    );
    Aabb::new(small, big)
}

} // verus!
