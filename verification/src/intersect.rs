//! Where a ray meets the spheres of a scene.

use crate::ray::Ray;
use crate::scalar::{Double, MAX, MINUS_ONE, ZERO};
use crate::scene::{Scene, Sphere};
use crate::vec3::Vec3;
use vstd::prelude::*;

verus! {

/// 0.0001, the step by which a hit point is moved off the surface, so that
/// the next ray does not meet the same surface again.
pub const NUDGE: u64 = 0x3F1A_36E2_EB1C_432D;

/// 0.001, the least parameter at which a ray that left a surface may hit.
pub const T_MIN: u64 = 0x3F50_624D_D2F1_A9FC;

/// Where and how a ray met a sphere.
#[derive(Clone, Copy, PartialEq, Eq, Structural, Debug)]
pub struct HitPayload {
    /// The parameter of the ray at the hit; -1 in the record of a miss.
    pub hit_distance: Double,
    /// The point of the hit.
    pub world_position: Vec3,
    /// The normal of the surface at the hit.
    pub world_normal: Vec3,
    /// The index of the sphere in the scene.
    pub object_index: usize,
    /// The ray came from outside the sphere.
    pub front_face: bool,
}

impl HitPayload {
    /// All zero, the first sphere, not from outside.
    pub open spec fn spec_default() -> HitPayload {
        HitPayload {
            hit_distance: Double { bits: ZERO },
            world_position: Vec3::from_bits(ZERO, ZERO, ZERO),
            world_normal: Vec3::from_bits(ZERO, ZERO, ZERO),
            object_index: 0,
            front_face: false,
        }
    }
}

impl Default for HitPayload {
    fn default() -> (r: Self)
        ensures
            r == HitPayload::spec_default(),
    {
        HitPayload {
            hit_distance: Double::from_bits(ZERO),
            world_position: Vec3::from_bits(ZERO, ZERO, ZERO),
            world_normal: Vec3::from_bits(ZERO, ZERO, ZERO),
            object_index: 0,
            front_face: false,
        }
    }
}

/// The vector from the center of the sphere to the origin of the ray.
pub open spec fn offset(sphere: &Sphere, r: &Ray) -> Vec3 {
    r.origin.sub(sphere.center)
}

/// The square of the length of the ray's direction: the coefficient `a` of
/// the equation `a t^2 + 2 half_b t + c = 0` for the points of the ray on
/// the sphere.
pub open spec fn quadratic_a(r: &Ray) -> Double {
    r.direction.length().mul(r.direction.length())
}

/// Half the coefficient of `t`: the dot product of the offset and the
/// direction.
pub open spec fn quadratic_half_b(sphere: &Sphere, r: &Ray) -> Double {
    offset(sphere, r).dot(r.direction)
}

/// The constant coefficient: the square of the offset's length less the
/// square of the radius.
pub open spec fn quadratic_c(sphere: &Sphere, r: &Ray) -> Double {
    let oc = offset(sphere, r);
    oc.length().mul(oc.length()).sub(sphere.radius.mul(sphere.radius))
}

/// `half_b^2 - a c`: below zero where the ray passes the sphere by.
pub open spec fn discriminant(sphere: &Sphere, r: &Ray) -> Double {
    let half_b = quadratic_half_b(sphere, r);
    half_b.mul(half_b).sub(quadratic_a(r).mul(quadratic_c(sphere, r)))
}

/// The lesser root, `(-half_b - root of the discriminant) / a`.
pub open spec fn near_root(sphere: &Sphere, r: &Ray) -> Double {
    quadratic_half_b(sphere, r).neg().sub(discriminant(sphere, r).sqrt()).div(quadratic_a(r))
}

/// The greater root, `(-half_b + root of the discriminant) / a`.
pub open spec fn far_root(sphere: &Sphere, r: &Ray) -> Double {
    quadratic_half_b(sphere, r).neg().add(discriminant(sphere, r).sqrt()).div(quadratic_a(r))
}

/// `root` is below `t_min` or above `t_max`. A NaN is neither.
pub open spec fn outside(root: Double, t_min: Double, t_max: Double) -> bool {
    root.lt(t_min) || t_max.lt(root)
}

/// The parameter at which the ray meets the sphere between `t_min` and
/// `t_max`: the near root where it lies in that range, else the far root
/// where that one does; none where the discriminant is below zero or both
/// roots lie outside.
pub open spec fn accepted_root(sphere: &Sphere, r: &Ray, t_min: Double, t_max: Double) -> Option<
    Double,
> {
    if discriminant(sphere, r).lt(Double { bits: ZERO }) {
        None
    } else if !outside(near_root(sphere, r), t_min, t_max) {
        Some(near_root(sphere, r))
    } else if !outside(far_root(sphere, r), t_min, t_max) {
        Some(far_root(sphere, r))
    } else {
        None
    }
}

/// The normal that points out of the sphere at the point of the ray at
/// `root`: the vector from the center to the point, over the radius.
pub open spec fn outward_normal(sphere: &Sphere, r: &Ray, root: Double) -> Vec3 {
    r.at(root).sub(sphere.center).div(sphere.radius)
}

/// The record of the hit at the parameter `root`. The ray comes from
/// outside where it runs against the outward normal. The normal of the
/// record is turned against the ray, and the point is moved by [`NUDGE`]
/// along it. The index of the sphere is left at 0.
pub open spec fn hit_at(sphere: &Sphere, r: &Ray, root: Double) -> HitPayload {
    let outward = outward_normal(sphere, r, root);
    let front_face = r.direction.dot(outward).lt(Double { bits: ZERO });
    let normal = if front_face {
        outward
    } else {
        outward.neg()
    };
    HitPayload {
        hit_distance: root,
        world_position: r.at(root).add(normal.scale(Double { bits: NUDGE })),
        world_normal: normal,
        object_index: 0,
        front_face,
    }
}

/// Where the ray meets the sphere between `t_min` and `t_max`, if it does.
pub open spec fn spec_sphere_hit(sphere: &Sphere, r: &Ray, t_min: Double, t_max: Double) -> Option<
    HitPayload,
> {
    match accepted_root(sphere, r, t_min, t_max) {
        Some(root) => Some(hit_at(sphere, r, root)),
        None => None,
    }
}

/// The nearest hit among the first `n` spheres. Each sphere in turn is
/// tested between `t_min` and the nearest hit so far; its hit replaces that
/// one only where it is strictly nearer, so of two spheres hit at the same
/// parameter the earlier one stays.
pub open spec fn closest_among(
    spheres: Seq<Sphere>,
    r: &Ray,
    t_min: Double,
    t_max: Double,
    n: nat,
) -> Option<HitPayload>
    decreases n,
{
    if n == 0 {
        None
    } else {
        let before = closest_among(spheres, r, t_min, t_max, (n - 1) as nat);
        let limit = match before {
            Some(hit) => hit.hit_distance,
            None => t_max,
        };
        match spec_sphere_hit(&spheres[n - 1], r, t_min, limit) {
            Some(hit) => if before.is_none() || hit.hit_distance.lt(limit) {
                Some(HitPayload { object_index: (n - 1) as usize, ..hit })
            } else {
                before
            },
            None => before,
        }
    }
}

/// The nearest hit of the ray among all spheres of the scene.
pub open spec fn spec_world_hit(scene: &Scene, r: &Ray, t_min: Double, t_max: Double) -> Option<
    HitPayload,
> {
    closest_among(scene.spheres@, r, t_min, t_max, scene.spheres@.len())
}

/// Each of the first `n` spheres that the ray does not pass by has roots
/// that are numbers. A sphere that the ray passes by, with a discriminant
/// below zero, has none.
pub open spec fn roots_are_numbers(spheres: Seq<Sphere>, r: &Ray, n: nat) -> bool {
    forall|i: int|
        0 <= i < n && !(#[trigger] discriminant(&spheres[i], r)).lt(Double { bits: ZERO })
            ==> !near_root(&spheres[i], r).is_nan() && !far_root(&spheres[i], r).is_nan()
}

/// `best` is the nearest hit among the first `n` spheres, in these words:
/// where it is none, no sphere is hit between `t_min` and `t_max`; where it
/// is a hit, it is the hit of its sphere at one of that sphere's roots, the
/// root lies between `t_min` and `t_max`, no sphere is hit nearer, and every
/// sphere that comes before it in the scene is hit farther.
pub open spec fn is_nearest(
    spheres: Seq<Sphere>,
    r: &Ray,
    t_min: Double,
    t_max: Double,
    n: nat,
    best: Option<HitPayload>,
) -> bool {
    match best {
        None => forall|i: int|
            0 <= i < n ==> (#[trigger] accepted_root(&spheres[i], r, t_min, t_max)).is_none(),
        Some(hit) => {
            let sphere = spheres[hit.object_index as int];
            &&& hit.object_index < n
            &&& hit == HitPayload { object_index: hit.object_index, ..hit_at(&sphere, r, hit.hit_distance) }
            &&& hit.hit_distance == near_root(&sphere, r) || hit.hit_distance == far_root(&sphere, r)
            &&& t_min.le(hit.hit_distance)
            &&& hit.hit_distance.le(t_max)
            &&& forall|i: int|
                0 <= i < n ==> match #[trigger] accepted_root(&spheres[i], r, t_min, t_max) {
                    Some(t) => if i < hit.object_index {
                        hit.hit_distance.lt(t)
                    } else {
                        hit.hit_distance.le(t)
                    },
                    None => true,
                }
        },
    }
}

/// The hit that [`closest_among`] finds is the nearest one, and of several
/// nearest ones the first, as long as the bounds and the roots are numbers.
pub proof fn lemma_closest_is_nearest(
    spheres: Seq<Sphere>,
    r: &Ray,
    t_min: Double,
    t_max: Double,
    n: nat,
)
    requires
        n <= spheres.len() <= usize::MAX,
        !t_min.is_nan(),
        !t_max.is_nan(),
        roots_are_numbers(spheres, r, n),
    ensures
        is_nearest(spheres, r, t_min, t_max, n, closest_among(spheres, r, t_min, t_max, n)),
    decreases n,
{
    if n > 0 {
        let m = (n - 1) as nat;
        lemma_closest_is_nearest(spheres, r, t_min, t_max, m);
        let before = closest_among(spheres, r, t_min, t_max, m);
        let after = closest_among(spheres, r, t_min, t_max, n);
        let last = spheres[n - 1];
        assert(!discriminant(&last, r).lt(Double { bits: ZERO }) ==> !near_root(&last, r).is_nan()
            && !far_root(&last, r).is_nan());
        assert forall|i: int| 0 <= i < n implies match #[trigger] accepted_root(
            &spheres[i],
            r,
            t_min,
            t_max,
        ) {
            Some(t) => after matches Some(hit) && if i < hit.object_index {
                hit.hit_distance.lt(t)
            } else {
                hit.hit_distance.le(t)
            },
            None => true,
        } by {
            if i < m {
                assert(is_nearest(spheres, r, t_min, t_max, m, before));
            }
        }
    }
}

/// Where none of the first `n` spheres is hit between `t_min` and `t_max`,
/// there is no nearest hit among them.
pub proof fn lemma_no_hit_among_misses(
    spheres: Seq<Sphere>,
    r: &Ray,
    t_min: Double,
    t_max: Double,
    n: nat,
)
    requires
        n <= spheres.len(),
        forall|i: int|
            0 <= i < n ==> (#[trigger] spec_sphere_hit(&spheres[i], r, t_min, t_max)).is_none(),
    ensures
        closest_among(spheres, r, t_min, t_max, n).is_none(),
    decreases n,
{
    if n > 0 {
        lemma_no_hit_among_misses(spheres, r, t_min, t_max, (n - 1) as nat);
        assert(spec_sphere_hit(&spheres[n - 1], r, t_min, t_max).is_none());
    }
}

/// Where the ray meets the sphere between `t_min` and `t_max`, if it does.
#[verifier::when_used_as_spec(spec_sphere_hit)]
pub fn sphere_hit(sphere: &Sphere, r: &Ray, t_min: Double, t_max: Double) -> (rec: Option<HitPayload>)
    ensures
        rec == spec_sphere_hit(sphere, r, t_min, t_max),
{
    let oc = r.origin().sub(*sphere.center());
    let a = r.direction().length().mul(r.direction().length());
    let half_b = oc.dot(*r.direction());
    let c = oc.length().mul(oc.length()).sub(sphere.radius().mul(sphere.radius()));

    let discriminant = half_b.mul(half_b).sub(a.mul(c));
    if discriminant.lt(Double::from_bits(ZERO)) {
        return None;
    }
    let sqrtd = discriminant.sqrt();

    let mut root = half_b.neg().sub(sqrtd).div(a);
    if root.lt(t_min) || t_max.lt(root) {
        root = half_b.neg().add(sqrtd).div(a);
        if root.lt(t_min) || t_max.lt(root) {
            return None;
        }
    }
    let position = r.at(root);
    let outward_normal = position.sub(*sphere.center()).div(sphere.radius());
    let front_face = r.direction().dot(outward_normal).lt(Double::from_bits(ZERO));
    let world_normal = if front_face {
        outward_normal
    } else {
        outward_normal.neg()
    };
    Some(
        HitPayload {
            hit_distance: root,
            world_position: position.add(world_normal.scale(Double::from_bits(NUDGE))),
            world_normal,
            object_index: 0,
            front_face,
        },
    )
}

/// The nearest hit of the ray among all spheres of the scene between
/// `t_min` and `t_max`. Of two spheres hit at the same parameter the one
/// that comes first in the scene is kept.
#[verifier::when_used_as_spec(spec_world_hit)]
pub fn world_hit(scene: &Scene, r: &Ray, t_min: Double, t_max: Double) -> (rec: Option<HitPayload>)
    ensures
        rec == spec_world_hit(scene, r, t_min, t_max),
        rec matches Some(hit) ==> hit.object_index < scene.spheres@.len(),
        !t_min.is_nan() && !t_max.is_nan() && roots_are_numbers(
            scene.spheres@,
            r,
            scene.spheres@.len(),
        ) ==> is_nearest(scene.spheres@, r, t_min, t_max, scene.spheres@.len(), rec),
{
    let count = scene.spheres.len();
    proof {
        if !t_min.is_nan() && !t_max.is_nan() && roots_are_numbers(
            scene.spheres@,
            r,
            count as nat,
        ) {
            lemma_closest_is_nearest(scene.spheres@, r, t_min, t_max, count as nat);
        }
    }
    let mut best: Option<HitPayload> = None;
    let mut closest_so_far = t_max;
    let mut i: usize = 0;
    while i < count
        invariant
            count == scene.spheres@.len(),
            i <= count,
            best == closest_among(scene.spheres@, r, t_min, t_max, i as nat),
            closest_so_far == match best {
                Some(hit) => hit.hit_distance,
                None => t_max,
            },
            best matches Some(hit) ==> hit.object_index < i,
        decreases scene.spheres@.len() - i,
    {
        match sphere_hit(&scene.spheres[i], r, t_min, closest_so_far) {
            Some(hit) => {
                if best.is_none() || hit.hit_distance.lt(closest_so_far) {
                    closest_so_far = hit.hit_distance;
                    best = Some(HitPayload { object_index: i, ..hit });
                }
            },
            None => {},
        }
        i += 1;
    }
    best
}

/// The record of a ray that hit nothing: a distance of -1.
pub open spec fn spec_miss() -> HitPayload {
    HitPayload { hit_distance: Double { bits: MINUS_ONE }, ..HitPayload::spec_default() }
}

/// The record of the hit of the sphere `object_index` at the parameter
/// `hit_distance`, as [`hit_at`] has it.
pub open spec fn spec_closest_hit(
    r: &Ray,
    hit_distance: Double,
    object_index: usize,
    scene: &Scene,
) -> HitPayload {
    HitPayload {
        object_index,
        ..hit_at(&scene.spheres@[object_index as int], r, hit_distance)
    }
}

/// The nearest hit of the ray among all spheres of the scene, between
/// [`T_MIN`] and the largest double, as [`spec_world_hit`] finds it; the
/// record of a miss where it finds none.
pub open spec fn spec_trace_ray(r: &Ray, scene: &Scene) -> HitPayload {
    match spec_world_hit(scene, r, Double { bits: T_MIN }, Double { bits: MAX }) {
        Some(hit) => hit,
        None => spec_miss(),
    }
}

/// The record of a ray that hit nothing.
#[verifier::when_used_as_spec(spec_miss)]
pub fn miss() -> (rec: HitPayload)
    ensures
        rec == spec_miss(),
        rec.hit_distance.lt(Double { bits: ZERO }),
{
    HitPayload {
        hit_distance: Double::from_bits(MINUS_ONE),
        world_position: Vec3::from_bits(ZERO, ZERO, ZERO),
        world_normal: Vec3::from_bits(ZERO, ZERO, ZERO),
        object_index: 0,
        front_face: false,
    }
}

/// The record of the hit of the sphere `object_index` at the parameter
/// `hit_distance`.
#[verifier::when_used_as_spec(spec_closest_hit)]
pub fn closest_hit(r: &Ray, hit_distance: Double, object_index: usize, scene: &Scene) -> (rec:
    HitPayload)
    requires
        object_index < scene.spheres@.len(),
    ensures
        rec == spec_closest_hit(r, hit_distance, object_index, scene),
{
    let sphere = &scene.spheres[object_index];
    let position = r.at(hit_distance);
    let outward_normal = position.sub(*sphere.center()).div(sphere.radius());
    let front_face = r.direction().dot(outward_normal).lt(Double::from_bits(ZERO));
    let world_normal = if front_face {
        outward_normal
    } else {
        outward_normal.neg()
    };
    HitPayload {
        hit_distance,
        world_position: position.add(world_normal.scale(Double::from_bits(NUDGE))),
        world_normal,
        object_index,
        front_face,
    }
}

/// The nearest hit of the ray among all spheres of the scene, or the
/// record of a miss. The distance of a hit is never below zero, so a
/// distance below zero tells the miss.
#[verifier::when_used_as_spec(spec_trace_ray)]
pub fn trace_ray(r: &Ray, scene: &Scene) -> (rec: HitPayload)
    ensures
        rec == spec_trace_ray(r, scene),
        rec.hit_distance.lt(Double { bits: ZERO }) <==> spec_world_hit(
            scene,
            r,
            Double { bits: T_MIN },
            Double { bits: MAX },
        ).is_none(),
        !rec.hit_distance.lt(Double { bits: ZERO }) ==> rec.object_index < scene.spheres@.len(),
{
    match world_hit(scene, r, Double::from_bits(T_MIN), Double::from_bits(MAX)) {
        Some(hit) => {
            proof {
                lemma_hit_is_not_before(
                    scene.spheres@,
                    r,
                    Double { bits: T_MIN },
                    Double { bits: MAX },
                    scene.spheres@.len(),
                );
            }
            hit
        },
        None => miss(),
    }
}

/// In a scene of one sphere, a ray whose near root lies between `t_min`
/// and `t_max` hits that sphere at the near root, not at the far one.
pub proof fn lemma_single_sphere_near_root(scene: &Scene, r: &Ray, t_min: Double, t_max: Double)
    requires
        scene.spheres@.len() == 1,
        !discriminant(&scene.spheres@[0], r).lt(Double { bits: ZERO }),
        !outside(near_root(&scene.spheres@[0], r), t_min, t_max),
    ensures
        spec_world_hit(scene, r, t_min, t_max) == Some(
            hit_at(&scene.spheres@[0], r, near_root(&scene.spheres@[0], r)),
        ),
{
    assert(closest_among(scene.spheres@, r, t_min, t_max, 0).is_none());
    assert(spec_world_hit(scene, r, t_min, t_max) == closest_among(
        scene.spheres@,
        r,
        t_min,
        t_max,
        1,
    ));
}

/// The distance of the nearest hit among the first `n` spheres is not below
/// `t_min`.
pub proof fn lemma_hit_is_not_before(
    spheres: Seq<Sphere>,
    r: &Ray,
    t_min: Double,
    t_max: Double,
    n: nat,
)
    ensures
        closest_among(spheres, r, t_min, t_max, n) matches Some(hit) ==> !hit.hit_distance.lt(
            t_min,
        ),
    decreases n,
{
    if n > 0 {
        lemma_hit_is_not_before(spheres, r, t_min, t_max, (n - 1) as nat);
    }
}

} // verus!
