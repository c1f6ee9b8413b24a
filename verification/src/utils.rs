//! Random numbers and small helpers on doubles and vectors.

use crate::scalar::{Float, Double, MINUS_ONE, ONE, ZERO};
use crate::vec3::{Vec3, Vec4};
use vstd::prelude::*;

verus! {

/// 1e-8, below which a component counts as zero.
pub const TINY: u64 = 0x3E45_798E_E230_8C3A;

/// `min + (max - min) * draw`: where `draw` lies in `[0, 1)` and `min` is
/// below `max`, a point between the two.
pub open spec fn spec_f64_in_range(min: Double, max: Double, draw: Double) -> Double {
    min.add(max.sub(min).mul(draw))
}

/// [`spec_f64_in_range`] on each component of `draws`.
pub open spec fn spec_vec3_in_range(min: Double, max: Double, draws: Vec3) -> Vec3 {
    Vec3 {
        x: spec_f64_in_range(min, max, draws.x),
        y: spec_f64_in_range(min, max, draws.y),
        z: spec_f64_in_range(min, max, draws.z),
    }
}

/// Every component lies in `[0, 1)`.
pub open spec fn in_unit_cube(draws: Vec3) -> bool {
    draws.x.in_unit_interval() && draws.y.in_unit_interval() && draws.z.in_unit_interval()
}

/// `x` brought between `min` and `max`. A NaN stays as it is.
pub open spec fn spec_clamp(x: Double, min: Double, max: Double) -> Double {
    if x.lt(min) {
        min
    } else if x.gt(max) {
        max
    } else {
        x
    }
}

/// Every component is closer to zero than [`TINY`].
pub open spec fn spec_near_zero(v: &Vec3) -> bool {
    let s = Double { bits: TINY };
    v.x.abs().lt(s) && v.y.abs().lt(s) && v.z.abs().lt(s)
}

/// The square root of the three colour channels; the fourth stays.
pub open spec fn spec_some_kind_of_gamma(v: &Vec4) -> Vec4 {
    Vec4 { x: v.x.sqrt(), y: v.y.sqrt(), z: v.z.sqrt(), w: v.w }
}

/// The fifth power by four products from the left.
pub open spec fn fifth_power(x: Double) -> Double {
    x.mul(x).mul(x).mul(x).mul(x)
}

/// Schlick's approximation of the share of light that a surface between two
/// media reflects: with `r0` the square of `(ratio - 1) / (ratio + 1)`, it is
/// `r0 + (1 - r0) * (1 - cosine)^5`.
pub open spec fn spec_reflectance(cosine: Double, ratio: Double) -> Double {
    let one = Double { bits: ONE };
    let r = ratio.sub(one).div(ratio.add(one));
    let r0 = r.mul(r);
    r0.add(one.sub(r0).mul(fifth_power(one.sub(cosine))))
}

/// `p` lies strictly inside the unit sphere, or its length is no number.
pub open spec fn spec_inside_unit_sphere(p: Vec3) -> bool {
    !p.length().ge(Double { bits: ONE })
}

/// `v` where it points to the side of `normal`, else its opposite.
pub open spec fn spec_towards(v: Vec3, normal: &Vec3) -> Vec3 {
    if v.dot(*normal).gt(Double { bits: ZERO }) {
        v
    } else {
        v.neg()
    }
}

/// A number that is clamped lies between the bounds, where the lower bound
/// is not above the upper one.
pub proof fn lemma_clamp_lies_between(x: Double, min: Double, max: Double)
    requires
        !x.is_nan(),
        min.le(max),
    ensures
        min.le(spec_clamp(x, min, max)),
        spec_clamp(x, min, max).le(max),
{
}

/// A double drawn uniformly from `[0, 1)`.
pub fn random_f64() -> (r: Double)
    ensures
        r.in_unit_interval(),
{
    draw()
}

/// The point of the range from `min` to `max` that the draw `draw` picks.
#[verifier::when_used_as_spec(spec_f64_in_range)]
pub fn f64_in_range(min: Double, max: Double, draw: Double) -> (r: Double)
    ensures
        r == spec_f64_in_range(min, max, draw),
{
    min.add(max.sub(min).mul(draw))
}

/// A double drawn from the range from `min` to `max`.
pub fn random_f64_range(min: Double, max: Double) -> (r: Double)
    ensures
        exists|d: Double| d.in_unit_interval() && r == spec_f64_in_range(min, max, d),
{
    let d = random_f64();
    f64_in_range(min, max, d)
}

/// A vector of three doubles drawn from `[0, 1)`.
pub fn random_vec3() -> (r: Vec3)
    ensures
        in_unit_cube(r),
{
    let x = random_f64();
    let y = random_f64();
    let z = random_f64();
    Vec3::new(x, y, z)
}

/// A colour of three channels drawn from `[0, 1)`.
pub fn random_color() -> (r: Vec3)
    ensures
        in_unit_cube(r),
{
    random_vec3()
}

/// The vector whose components the three draws `draws` pick from the range
/// from `min` to `max`.
#[verifier::when_used_as_spec(spec_vec3_in_range)]
pub fn vec3_in_range(min: Double, max: Double, draws: Vec3) -> (r: Vec3)
    ensures
        r == spec_vec3_in_range(min, max, draws),
{
    Vec3::new(
        f64_in_range(min, max, draws.x),
        f64_in_range(min, max, draws.y),
        f64_in_range(min, max, draws.z),
    )
}

/// A vector with each component drawn from the range from `min` to `max`.
pub fn random_vec3_range(min: Double, max: Double) -> (r: Vec3)
    ensures
        exists|d: Vec3| in_unit_cube(d) && r == spec_vec3_in_range(min, max, d),
{
    let d = random_vec3();
    vec3_in_range(min, max, d)
}

/// `x` brought between `min` and `max`. A NaN stays as it is.
#[verifier::when_used_as_spec(spec_clamp)]
pub fn clamp(x: Double, min: Double, max: Double) -> (r: Double)
    ensures
        r == spec_clamp(x, min, max),
{
    if x.lt(min) {
        min
    } else if x.gt(max) {
        max
    } else {
        x
    }
}

/// Whether every component is closer to zero than [`TINY`].
#[verifier::when_used_as_spec(spec_near_zero)]
pub fn near_zero(v: &Vec3) -> (r: bool)
    ensures
        r == spec_near_zero(v),
{
    let s = Double::from_bits(TINY);
    v.x.abs().lt(s) && v.y.abs().lt(s) && v.z.abs().lt(s)
}

/// The square root of the three colour channels; the fourth stays.
#[verifier::when_used_as_spec(spec_some_kind_of_gamma)]
pub fn some_kind_of_gamma(v: &Vec4) -> (r: Vec4)
    ensures
        r == spec_some_kind_of_gamma(v),
{
    Vec4::new(v.x.sqrt(), v.y.sqrt(), v.z.sqrt(), v.w)
}

/// Schlick's approximation of the share of light that is reflected.
#[verifier::when_used_as_spec(spec_reflectance)]
pub fn reflectance(cosine: Double, ratio: Double) -> (r: Double)
    ensures
        r == spec_reflectance(cosine, ratio),
{
    let one = Double::from_bits(ONE);
    let r = ratio.sub(one).div(ratio.add(one));
    let r0 = r.mul(r);
    let x = one.sub(cosine);
    r0.add(one.sub(r0).mul(x.mul(x).mul(x).mul(x).mul(x)))
}

/// Whether `p` lies strictly inside the unit sphere.
#[verifier::when_used_as_spec(spec_inside_unit_sphere)]
pub fn inside_unit_sphere(p: Vec3) -> (r: bool)
    ensures
        r == spec_inside_unit_sphere(p),
{
    !p.length().ge(Double::from_bits(ONE))
}

/// A point inside the unit sphere, found by drawing points of the cube
/// around it until one lies inside: the first candidate inside of some run
/// of draws, which is as long as it took. `None` where all of `attempts`
/// draws gave a candidate outside.
pub fn random_in_unit_sphere(attempts: usize) -> (r: Option<Vec3>)
    ensures
        exists|draws: Seq<Vec3>| is_rejection_run(draws, attempts, r),
        attempts == 0 ==> r.is_none(),
        r matches Some(p) ==> spec_inside_unit_sphere(p),
{
    let mut left: usize = attempts;
    let ghost mut used: Seq<Vec3> = Seq::empty();
    while left > 0
        invariant
            left <= attempts,
            used.len() == attempts - left,
            forall|i: int| 0 <= i < used.len() ==> in_unit_cube(#[trigger] used[i]),
            first_inside(used).is_none(),
        decreases left,
    {
        let p = random_vec3_range(Double::from_bits(MINUS_ONE), Double::from_bits(ONE));
        proof {
            let d = choose|d: Vec3|
                in_unit_cube(d) && p == spec_vec3_in_range(
                    Double { bits: MINUS_ONE },
                    Double { bits: ONE },
                    d,
                );
            let longer = used.push(d);
            assert(longer.drop_last() =~= used);
            assert(longer.last() == d);
            used = longer;
        }
        if inside_unit_sphere(p) {
            assert(is_rejection_run(used, attempts, Some(p)));
            return Some(p);
        }
        left -= 1;
    }
    assert(is_rejection_run(used, attempts, None));
    None
}

/// A direction of length one: the point that [`random_in_unit_sphere`]
/// finds, brought to length one. `None` where all of `attempts` draws gave
/// a candidate outside the sphere.
pub fn random_unit_vec3(attempts: usize) -> (r: Option<Vec3>)
    ensures
        exists|draws: Seq<Vec3>, p: Option<Vec3>|
            is_rejection_run(draws, attempts, p) && r == spec_unit(p),
        attempts == 0 ==> r.is_none(),
{
    let p = random_in_unit_sphere(attempts);
    proof {
        let draws = choose|draws: Seq<Vec3>| is_rejection_run(draws, attempts, p);
        assert(is_rejection_run(draws, attempts, p));
    }
    match p {
        Some(p) => Some(p.normalize()),
        None => None,
    }
}

/// `v` where it points to the side of `normal`, else its opposite.
#[verifier::when_used_as_spec(spec_towards)]
pub fn towards(v: Vec3, normal: &Vec3) -> (r: Vec3)
    ensures
        r == spec_towards(v, normal),
{
    if v.dot(*normal).gt(Double::from_bits(ZERO)) {
        v
    } else {
        v.neg()
    }
}

/// A point inside the unit sphere, on the side of `normal`: the point that
/// [`random_in_unit_sphere`] finds, or its opposite. `None` where all of
/// `attempts` draws gave a candidate outside the sphere.
pub fn random_in_hemisphere(normal: &Vec3, attempts: usize) -> (r: Option<Vec3>)
    ensures
        exists|draws: Seq<Vec3>, p: Option<Vec3>|
            is_rejection_run(draws, attempts, p) && r == spec_on_side(p, normal),
        attempts == 0 ==> r.is_none(),
{
    let p = random_in_unit_sphere(attempts);
    proof {
        let draws = choose|draws: Seq<Vec3>| is_rejection_run(draws, attempts, p);
        assert(is_rejection_run(draws, attempts, p));
    }
    match p {
        Some(p) => Some(towards(p, normal)),
        None => None,
    }
}

/// `rand::random` for a double, which draws from the generator of the
/// thread: a multiple of 2^-53 in `[0, 1)`.
#[verifier::external_body]
fn draw() -> (r: Double)
    ensures
        r.in_unit_interval(),
{
    Double { bits: rand::random::<Float>().to_bits() }
}

/// The point of the cube from -1 to 1 that three draws pick.
pub open spec fn candidate(draws: Vec3) -> Vec3 {
    spec_vec3_in_range(Double { bits: MINUS_ONE }, Double { bits: ONE }, draws)
}

/// The candidate of the first of the draws whose candidate lies inside the
/// unit sphere.
pub open spec fn first_inside(draws: Seq<Vec3>) -> Option<Vec3>
    decreases draws.len(),
{
    if draws.len() == 0 {
        None
    } else {
        match first_inside(draws.drop_last()) {
            Some(p) => Some(p),
            None => if spec_inside_unit_sphere(candidate(draws.last())) {
                Some(candidate(draws.last()))
            } else {
                None
            },
        }
    }
}

/// `r` is what the run of draws `draws` finds with at most `attempts`
/// draws: every draw lies in `[0, 1)`; the run ends with the first
/// candidate inside the unit sphere, which is `r`; it ends without one
/// only after `attempts` draws.
pub open spec fn is_rejection_run(draws: Seq<Vec3>, attempts: usize, r: Option<Vec3>) -> bool {
    &&& draws.len() <= attempts
    &&& forall|i: int| 0 <= i < draws.len() ==> in_unit_cube(#[trigger] draws[i])
    &&& r == first_inside(draws)
    &&& r.is_some() ==> first_inside(draws.drop_last()).is_none()
    &&& r.is_none() ==> draws.len() == attempts
}

/// The point brought to length one, if there is one.
pub open spec fn spec_unit(p: Option<Vec3>) -> Option<Vec3> {
    match p {
        Some(p) => Some(p.normalize()),
        None => None,
    }
}

/// The point turned to the side of `normal`, if there is one.
pub open spec fn spec_on_side(p: Option<Vec3>, normal: &Vec3) -> Option<Vec3> {
    match p {
        Some(p) => Some(spec_towards(p, normal)),
        None => None,
    }
}

} // verus!
