//! Vectors of three and four doubles.
//!
//! Sums, differences and scalings go component by component through
//! [`Double`]. Dot and cross product, length, normalizing and reflection are
//! those of `glm`: what each of them computes is written out here over the
//! named operations of [`Double`], in the order in which `glm` applies them.
//! Refraction follows Snell's law as GLSL writes it.

use crate::scalar::{Float, Double, ONE, ZERO};
use vstd::prelude::*;

verus! {

/// A position, a direction or a colour.
#[derive(Clone, Copy, PartialEq, Eq, Structural, Debug)]
pub struct Vec3 {
    pub x: Double,
    pub y: Double,
    pub z: Double,
}

/// A colour is a vector of red, green and blue.
pub type Color3 = Vec3;

/// A colour with a fourth channel, as the accumulation buffer holds it.
#[derive(Clone, Copy, PartialEq, Eq, Structural, Debug)]
pub struct Vec4 {
    pub x: Double,
    pub y: Double,
    pub z: Double,
    pub w: Double,
}

impl Vec3 {
    /// The vector of the doubles with the given bits.
    pub open spec fn spec_from_bits(x: u64, y: u64, z: u64) -> Vec3 {
        Vec3 { x: Double { bits: x }, y: Double { bits: y }, z: Double { bits: z } }
    }

    /// The component on axis `i`: 0 for x, 1 for y, 2 for z.
    pub open spec fn spec_get(self, i: usize) -> Double {
        if i == 0 {
            self.x
        } else if i == 1 {
            self.y
        } else {
            self.z
        }
    }

    /// The vector with [`NAN`](crate::scalar::NAN) for every NaN.
    pub open spec fn spec_canonical(self) -> Vec3 {
        Vec3 { x: self.x.canonical(), y: self.y.canonical(), z: self.z.canonical() }
    }

    /// The sum component by component.
    pub open spec fn spec_add(self, rhs: Vec3) -> Vec3 {
        Vec3 { x: self.x.add(rhs.x), y: self.y.add(rhs.y), z: self.z.add(rhs.z) }
    }

    /// The difference component by component.
    pub open spec fn spec_sub(self, rhs: Vec3) -> Vec3 {
        Vec3 { x: self.x.sub(rhs.x), y: self.y.sub(rhs.y), z: self.z.sub(rhs.z) }
    }

    /// The opposite vector.
    pub open spec fn spec_neg(self) -> Vec3 {
        Vec3 { x: self.x.neg(), y: self.y.neg(), z: self.z.neg() }
    }

    /// Every component times `s`.
    pub open spec fn spec_scale(self, s: Double) -> Vec3 {
        Vec3 { x: self.x.mul(s), y: self.y.mul(s), z: self.z.mul(s) }
    }

    /// Every component over `s`.
    pub open spec fn spec_div(self, s: Double) -> Vec3 {
        Vec3 { x: self.x.div(s), y: self.y.div(s), z: self.z.div(s) }
    }

    /// The product component by component.
    pub open spec fn spec_mul(self, rhs: Vec3) -> Vec3 {
        Vec3 { x: self.x.mul(rhs.x), y: self.y.mul(rhs.y), z: self.z.mul(rhs.z) }
    }

    /// `(x*x' + y*y') + z*z'`.
    pub open spec fn spec_dot(self, rhs: Vec3) -> Double {
        self.x.mul(rhs.x).add(self.y.mul(rhs.y)).add(self.z.mul(rhs.z))
    }

    /// The cross product, each component a difference of two products.
    pub open spec fn spec_cross(self, rhs: Vec3) -> Vec3 {
        Vec3 {
            x: self.y.mul(rhs.z).sub(rhs.y.mul(self.z)),
            y: self.z.mul(rhs.x).sub(rhs.z.mul(self.x)),
            z: self.x.mul(rhs.y).sub(rhs.x.mul(self.y)),
        }
    }

    /// The root of the vector's dot product with itself.
    pub open spec fn spec_length(self) -> Double {
        self.spec_dot(self).sqrt()
    }

    /// The vector times the reciprocal of its length. Of the zero vector
    /// this is a vector of NaN: the callers keep it out.
    pub open spec fn spec_normalize(self) -> Vec3 {
        self.spec_scale(Double { bits: ONE }.div(self.spec_dot(self).sqrt()))
    }

    /// `self - n * (d + d)` with `d` the dot product of `n` and `self`: the
    /// mirror image of `self` at a surface of normal `n`.
    pub open spec fn spec_reflect(self, n: Vec3) -> Vec3 {
        let d = n.spec_dot(self);
        self.spec_sub(n.spec_scale(d.add(d)))
    }

    /// The term under the root in [`Vec3::spec_refract`]:
    /// `1 - eta * eta * (1 - d * d)` with `d` the dot product of `n` and
    /// `self`. It is the square of the cosine of the angle at which Snell's
    /// law lets the ray go on, and below zero where the law has no solution.
    pub open spec fn refract_discriminant(self, n: Vec3, eta: Double) -> Double {
        let d = n.spec_dot(self);
        let one = Double { bits: ONE };
        one.sub(eta.mul(eta).mul(one.sub(d.mul(d))))
    }

    /// The direction in which a ray of direction `self` goes on behind a
    /// surface of normal `n`, by Snell's law with the ratio `eta` of the
    /// refractive indices before and behind the surface: the zero vector
    /// where the law has no solution, else
    /// `self * eta - n * (eta * d + root)`. Both vectors are to have
    /// length one.
    pub open spec fn spec_refract(self, n: Vec3, eta: Double) -> Vec3 {
        let d = n.spec_dot(self);
        let k = self.refract_discriminant(n, eta);
        if k.lt(Double { bits: ZERO }) {
            Vec3::spec_from_bits(ZERO, ZERO, ZERO)
        } else {
            self.spec_scale(eta).spec_sub(n.spec_scale(eta.mul(d).add(k.sqrt())))
        }
    }

    /// The vector of three components.
    pub fn new(x: Double, y: Double, z: Double) -> (r: Vec3)
        ensures
            r == (Vec3 { x, y, z }),
    {
        Vec3 { x, y, z }
    }

    /// The vector of the doubles with the given bits.
    #[verifier::when_used_as_spec(spec_from_bits)]
    pub fn from_bits(x: u64, y: u64, z: u64) -> (r: Vec3)
        ensures
            r == Vec3::spec_from_bits(x, y, z),
    {
        Vec3 { x: Double { bits: x }, y: Double { bits: y }, z: Double { bits: z } }
    }

    /// The component on axis `i`, which is below 3.
    #[verifier::when_used_as_spec(spec_get)]
    pub fn get(self, i: usize) -> (r: Double)
        requires
            i < 3,
        ensures
            r == self.spec_get(i),
    {
        if i == 0 {
            self.x
        } else if i == 1 {
            self.y
        } else {
            self.z
        }
    }

    /// The vector with [`NAN`](crate::scalar::NAN) for every NaN.
    #[verifier::when_used_as_spec(spec_canonical)]
    pub fn canonical(self) -> (r: Vec3)
        ensures
            r == self.spec_canonical(),
    {
        Vec3 { x: self.x.canonical(), y: self.y.canonical(), z: self.z.canonical() }
    }

    /// The sum component by component.
    #[verifier::when_used_as_spec(spec_add)]
    pub fn add(self, rhs: Vec3) -> (r: Vec3)
        ensures
            r == self.spec_add(rhs),
    {
        Vec3 { x: self.x.add(rhs.x), y: self.y.add(rhs.y), z: self.z.add(rhs.z) }
    }

    /// The difference component by component.
    #[verifier::when_used_as_spec(spec_sub)]
    pub fn sub(self, rhs: Vec3) -> (r: Vec3)
        ensures
            r == self.spec_sub(rhs),
    {
        Vec3 { x: self.x.sub(rhs.x), y: self.y.sub(rhs.y), z: self.z.sub(rhs.z) }
    }

    /// The opposite vector.
    #[verifier::when_used_as_spec(spec_neg)]
    pub fn neg(self) -> (r: Vec3)
        ensures
            r == self.spec_neg(),
    {
        Vec3 { x: self.x.neg(), y: self.y.neg(), z: self.z.neg() }
    }

    /// Every component times `s`.
    #[verifier::when_used_as_spec(spec_scale)]
    pub fn scale(self, s: Double) -> (r: Vec3)
        ensures
            r == self.spec_scale(s),
    {
        Vec3 { x: self.x.mul(s), y: self.y.mul(s), z: self.z.mul(s) }
    }

    /// Every component over `s`.
    #[verifier::when_used_as_spec(spec_div)]
    pub fn div(self, s: Double) -> (r: Vec3)
        ensures
            r == self.spec_div(s),
    {
        Vec3 { x: self.x.div(s), y: self.y.div(s), z: self.z.div(s) }
    }

    /// The product component by component.
    #[verifier::when_used_as_spec(spec_mul)]
    pub fn mul(self, rhs: Vec3) -> (r: Vec3)
        ensures
            r == self.spec_mul(rhs),
    {
        Vec3 { x: self.x.mul(rhs.x), y: self.y.mul(rhs.y), z: self.z.mul(rhs.z) }
    }

    /// The dot product.
    #[verifier::when_used_as_spec(spec_dot)]
    pub fn dot(self, rhs: Vec3) -> (r: Double)
        ensures
            r == self.spec_dot(rhs),
    {
        glm_dot(self, rhs).canonical()
    }

    /// The cross product.
    #[verifier::when_used_as_spec(spec_cross)]
    pub fn cross(self, rhs: Vec3) -> (r: Vec3)
        ensures
            r == self.spec_cross(rhs),
    {
        glm_cross(self, rhs).canonical()
    }

    /// The length.
    #[verifier::when_used_as_spec(spec_length)]
    pub fn length(self) -> (r: Double)
        ensures
            r == self.spec_length(),
    {
        glm_length(self).canonical()
    }

    /// The vector brought to length one. The zero vector gives NaN.
    #[verifier::when_used_as_spec(spec_normalize)]
    pub fn normalize(self) -> (r: Vec3)
        ensures
            r == self.spec_normalize(),
    {
        glm_normalize(self).canonical()
    }

    /// The mirror image at a surface of normal `n`, which is to have length
    /// one.
    #[verifier::when_used_as_spec(spec_reflect)]
    pub fn reflect(self, n: Vec3) -> (r: Vec3)
        ensures
            r == self.spec_reflect(n),
    {
        glm_reflect(self, n).canonical()
    }

    /// The direction behind a surface of normal `n`, by Snell's law.
    #[verifier::when_used_as_spec(spec_refract)]
    pub fn refract(self, n: Vec3, eta: Double) -> (r: Vec3)
        ensures
            r == self.spec_refract(n, eta),
    {
        let d = n.dot(self);
        let one = Double::from_bits(ONE);
        let k = one.sub(eta.mul(eta).mul(one.sub(d.mul(d))));
        if k.lt(Double::from_bits(ZERO)) {
            Vec3::from_bits(ZERO, ZERO, ZERO)
        } else {
            self.scale(eta).sub(n.scale(eta.mul(d).add(k.sqrt())))
        }
    }
}

impl Vec4 {
    /// The vector of the doubles with the given bits.
    pub open spec fn spec_from_bits(x: u64, y: u64, z: u64, w: u64) -> Vec4 {
        Vec4 { x: Double { bits: x }, y: Double { bits: y }, z: Double { bits: z }, w: Double { bits: w } }
    }

    /// The colour with a fourth channel of 1.
    pub open spec fn spec_from_color(c: Vec3) -> Vec4 {
        Vec4 { x: c.x, y: c.y, z: c.z, w: Double { bits: ONE } }
    }

    /// The sum component by component.
    pub open spec fn spec_add(self, rhs: Vec4) -> Vec4 {
        Vec4 {
            x: self.x.add(rhs.x),
            y: self.y.add(rhs.y),
            z: self.z.add(rhs.z),
            w: self.w.add(rhs.w),
        }
    }

    /// Every component over `s`.
    pub open spec fn spec_div(self, s: Double) -> Vec4 {
        Vec4 { x: self.x.div(s), y: self.y.div(s), z: self.z.div(s), w: self.w.div(s) }
    }

    /// The vector of four components.
    pub fn new(x: Double, y: Double, z: Double, w: Double) -> (r: Vec4)
        ensures
            r == (Vec4 { x, y, z, w }),
    {
        Vec4 { x, y, z, w }
    }

    /// The vector of the doubles with the given bits.
    #[verifier::when_used_as_spec(spec_from_bits)]
    pub fn from_bits(x: u64, y: u64, z: u64, w: u64) -> (r: Vec4)
        ensures
            r == Vec4::spec_from_bits(x, y, z, w),
    {
        Vec4 { x: Double { bits: x }, y: Double { bits: y }, z: Double { bits: z }, w: Double { bits: w } }
    }

    /// The colour with a fourth channel of 1.
    #[verifier::when_used_as_spec(spec_from_color)]
    pub fn from_color(c: Vec3) -> (r: Vec4)
        ensures
            r == Vec4::spec_from_color(c),
    {
        Vec4 { x: c.x, y: c.y, z: c.z, w: Double { bits: ONE } }
    }

    /// The sum component by component.
    #[verifier::when_used_as_spec(spec_add)]
    pub fn add(self, rhs: Vec4) -> (r: Vec4)
        ensures
            r == self.spec_add(rhs),
    {
        Vec4 {
            x: self.x.add(rhs.x),
            y: self.y.add(rhs.y),
            z: self.z.add(rhs.z),
            w: self.w.add(rhs.w),
        }
    }

    /// Every component over `s`.
    #[verifier::when_used_as_spec(spec_div)]
    pub fn div(self, s: Double) -> (r: Vec4)
        ensures
            r == self.spec_div(s),
    {
        Vec4 { x: self.x.div(s), y: self.y.div(s), z: self.z.div(s), w: self.w.div(s) }
    }
}

/// `glm::dot`, which sums the products of the components from the first to
/// the last. The result is that sum up to the payload of a NaN.
#[verifier::external_body]
fn glm_dot(a: Vec3, b: Vec3) -> (r: Double)
    ensures
        r.canonical() == a.spec_dot(b),
{
    let u = glm::dvec3(
        Float::from_bits(a.x.bits), Float::from_bits(a.y.bits), Float::from_bits(a.z.bits),
    );
    let v = glm::dvec3(
        Float::from_bits(b.x.bits), Float::from_bits(b.y.bits), Float::from_bits(b.z.bits),
    );
    Double { bits: glm::dot(u, v).to_bits() }
}

/// `glm::cross`: each component is a difference of two products, as
/// [`Vec3::spec_cross`] writes them, up to the payload of a NaN.
#[verifier::external_body]
fn glm_cross(a: Vec3, b: Vec3) -> (r: Vec3)
    ensures
        r.canonical() == a.spec_cross(b),
{
    let u = glm::dvec3(
        Float::from_bits(a.x.bits), Float::from_bits(a.y.bits), Float::from_bits(a.z.bits),
    );
    let v = glm::dvec3(
        Float::from_bits(b.x.bits), Float::from_bits(b.y.bits), Float::from_bits(b.z.bits),
    );
    let w = glm::cross(u, v);
    Vec3 {
        x: Double { bits: w.x.to_bits() },
        y: Double { bits: w.y.to_bits() },
        z: Double { bits: w.z.to_bits() },
    }
}

/// `glm::length`: the square root of `glm::dot` of the vector with itself,
/// up to the payload of a NaN.
#[verifier::external_body]
fn glm_length(a: Vec3) -> (r: Double)
    ensures
        r.canonical() == a.spec_length(),
{
    let u = glm::dvec3(
        Float::from_bits(a.x.bits), Float::from_bits(a.y.bits), Float::from_bits(a.z.bits),
    );
    Double { bits: glm::length(u).to_bits() }
}

/// `glm::normalize`: every component times the reciprocal of the root of the
/// vector's dot product with itself, up to the payload of a NaN. It divides
/// by zero without a panic.
#[verifier::external_body]
fn glm_normalize(a: Vec3) -> (r: Vec3)
    ensures
        r.canonical() == a.spec_normalize(),
{
    let u = glm::dvec3(
        Float::from_bits(a.x.bits), Float::from_bits(a.y.bits), Float::from_bits(a.z.bits),
    );
    let w = glm::normalize(u);
    Vec3 {
        x: Double { bits: w.x.to_bits() },
        y: Double { bits: w.y.to_bits() },
        z: Double { bits: w.z.to_bits() },
    }
}

/// `glm::reflect` of the incident vector `i` at the normal `n`:
/// `i - n * (d + d)` with `d` the dot product of `n` and `i`, up to the
/// payload of a NaN.
#[verifier::external_body]
fn glm_reflect(i: Vec3, n: Vec3) -> (r: Vec3)
    ensures
        r.canonical() == i.spec_reflect(n),
{
    let u = glm::dvec3(
        Float::from_bits(i.x.bits), Float::from_bits(i.y.bits), Float::from_bits(i.z.bits),
    );
    let v = glm::dvec3(
        Float::from_bits(n.x.bits), Float::from_bits(n.y.bits), Float::from_bits(n.z.bits),
    );
    let w = glm::reflect(u, v);
    Vec3 {
        x: Double { bits: w.x.to_bits() },
        y: Double { bits: w.y.to_bits() },
        z: Double { bits: w.z.to_bits() },
    }
}

} // verus!
