//! The light that arrives along a ray, by following it from bounce to
//! bounce.

use crate::intersect::{
    lemma_no_hit_among_misses, sphere_hit, world_hit, HitPayload, T_MIN,
};
use crate::ray::Ray;
use crate::scalar::{Double, HALF, MAX, ONE, ZERO};
use crate::scatter::{scatter, scatter_with, ScatterSample};
use crate::scene::{Scene, SEVEN_TENTHS};
use crate::vec3::{Color3, Vec3};
use vstd::prelude::*;

verus! {

/// The number of bounces that [`crate::renderer::Renderer::render_recurse`]
/// follows.
pub const MAX_DEPTH: u32 = 50;

/// No light.
pub open spec fn black() -> Vec3 {
    Vec3::from_bits(ZERO, ZERO, ZERO)
}

/// The colour of the sky in the direction of the ray: with `t` half of the
/// height of the unit direction plus one, white times `1 - t` plus a light
/// blue times `t`.
pub open spec fn spec_sky(ray: &Ray) -> Vec3 {
    let unit_direction = ray.direction.normalize();
    let t = Double { bits: HALF }.mul(unit_direction.y.add(Double { bits: ONE }));
    Vec3::from_bits(ONE, ONE, ONE).scale(Double { bits: ONE }.sub(t)).add(
        Vec3::from_bits(HALF, SEVEN_TENTHS, ONE).scale(t),
    )
}

/// The material of the sphere that was hit.
pub open spec fn material_index_at(scene: &Scene, rec: &HitPayload) -> int {
    scene.spheres@[rec.object_index as int].material_index as int
}

/// The light along `ray` with `depth` bounces left, where the bounce of
/// number `i` scatters by `samples[i]`.
///
/// Without a bounce left there is none. A ray that hits nothing sees the
/// sky. A ray that hits a sphere brings what the scattered ray brings, each
/// channel times the attenuation, or nothing where the material swallows
/// it.
pub open spec fn radiance(ray: &Ray, scene: &Scene, depth: nat, samples: Seq<ScatterSample>) -> Vec3
    decreases depth,
{
    if depth == 0 {
        black()
    } else {
        match world_hit(scene, ray, Double { bits: T_MIN }, Double { bits: MAX }) {
            None => spec_sky(ray),
            Some(rec) => match scatter_with(
                &scene.materials@[material_index_at(scene, &rec)],
                ray,
                &rec,
                &samples[0],
            ) {
                Some(s) => s.attenuation.mul(
                    radiance(&s.scattered, scene, (depth - 1) as nat, samples.drop_first()),
                ),
                None => black(),
            },
        }
    }
}

/// `depth` samples, each of draws from `[0, 1)`.
pub open spec fn are_samples(samples: Seq<ScatterSample>, depth: nat) -> bool {
    samples.len() == depth && forall|i: int| 0 <= i < depth ==> (#[trigger] samples[i]).wf()
}

/// The ray meets no sphere of the scene between [`T_MIN`] and the largest
/// double.
pub open spec fn misses_every_sphere(ray: &Ray, scene: &Scene) -> bool {
    forall|i: int|
        0 <= i < scene.spheres@.len() ==> (#[trigger] sphere_hit(
            &scene.spheres@[i],
            ray,
            Double { bits: T_MIN },
            Double { bits: MAX },
        )).is_none()
}

/// Without a bounce left no light arrives, whatever the scene holds.
pub proof fn lemma_radiance_without_depth(ray: &Ray, scene: &Scene, samples: Seq<ScatterSample>)
    ensures
        radiance(ray, scene, 0, samples) == black(),
{
}

/// A ray that misses every sphere brings the colour of the sky, however
/// many bounces are left, as long as there is one.
pub proof fn lemma_radiance_of_a_miss(
    ray: &Ray,
    scene: &Scene,
    depth: nat,
    samples: Seq<ScatterSample>,
)
    requires
        depth > 0,
        misses_every_sphere(ray, scene),
    ensures
        radiance(ray, scene, depth, samples) == spec_sky(ray),
{
    lemma_no_hit_among_misses(
        scene.spheres@,
        ray,
        Double { bits: T_MIN },
        Double { bits: MAX },
        scene.spheres@.len(),
    );
}

/// The colour of the sky in the direction of the ray.
#[verifier::when_used_as_spec(spec_sky)]
pub fn sky(ray: &Ray) -> (r: Vec3)
    ensures
        r == spec_sky(ray),
{
    let unit_direction = ray.direction().normalize();
    let t = Double::from_bits(HALF).mul(unit_direction.y.add(Double::from_bits(ONE)));
    Vec3::from_bits(ONE, ONE, ONE).scale(Double::from_bits(ONE).sub(t)).add(
        Vec3::from_bits(HALF, SEVEN_TENTHS, ONE).scale(t),
    )
}

fn radiance_from(
    ray: &Ray,
    scene: &Scene,
    depth: u32,
    samples: &Vec<ScatterSample>,
    start: usize,
) -> (r: Vec3)
    requires
        scene.wf(),
        start + depth <= samples.len(),
    ensures
        r == radiance(ray, scene, depth as nat, samples@.skip(start as int)),
    decreases depth,
{
    if depth == 0 {
        return Vec3::from_bits(ZERO, ZERO, ZERO);
    }
    match world_hit(scene, ray, Double::from_bits(T_MIN), Double::from_bits(MAX)) {
        Some(rec) => {
            let sphere = &scene.spheres[rec.object_index];
            let material = &scene.materials[sphere.material_index()];
            assert(samples@.skip(start as int)[0] == samples@[start as int]);
            assert(samples@.skip(start as int).drop_first() =~= samples@.skip(start + 1));
            match scatter_with(material, ray, &rec, &samples[start]) {
                Some(s) => {
                    let inner = radiance_from(&s.scattered, scene, depth - 1, samples, start + 1);
                    s.attenuation.mul(inner)
                },
                None => Vec3::from_bits(ZERO, ZERO, ZERO),
            }
        },
        None => sky(ray),
    }
}

/// The light along `ray` with `depth` bounces left, where the bounce of
/// number `i` scatters by `samples[i]`.
pub fn pixel_color_with(ray: &Ray, scene: &Scene, depth: u32, samples: &Vec<ScatterSample>) -> (r:
    Color3)
    requires
        scene.wf(),
        depth <= samples.len(),
    ensures
        r == radiance(ray, scene, depth as nat, samples@),
{
    assert(samples@.skip(0) =~= samples@);
    radiance_from(ray, scene, depth, samples, 0)
}

/// The light along `ray` with `depth` bounces left, each bounce with draws
/// made on the spot: the radiance for some `depth` samples.
pub fn pixel_color(ray: &Ray, scene: &Scene, depth: u32) -> (r: Color3)
    requires
        scene.wf(),
    ensures
        exists|samples: Seq<ScatterSample>|
            are_samples(samples, depth as nat) && r == radiance(ray, scene, depth as nat, samples),
        depth == 0 ==> r == black(),
        depth > 0 && misses_every_sphere(ray, scene) ==> r == spec_sky(ray),
    decreases depth,
{
    proof {
        if depth > 0 && misses_every_sphere(ray, scene) {
            lemma_no_hit_among_misses(
                scene.spheres@,
                ray,
                Double { bits: T_MIN },
                Double { bits: MAX },
                scene.spheres@.len(),
            );
        }
    }
    let ghost zeros = Seq::new(depth as nat, |i: int| ScatterSample::spec_zero());
    if depth == 0 {
        assert(are_samples(zeros, 0));
        return Vec3::from_bits(ZERO, ZERO, ZERO);
    }
    match world_hit(scene, ray, Double::from_bits(T_MIN), Double::from_bits(MAX)) {
        Some(rec) => {
            let sphere = &scene.spheres[rec.object_index];
            let material_index = sphere.material_index();
            let scattered = scatter(material_index, scene, ray, &rec);
            let ghost first = choose|sample: ScatterSample|
                sample.wf() && scattered == scatter_with(
                    &scene.materials@[material_index as int],
                    ray,
                    &rec,
                    &sample,
                );
            match scattered {
                Some(s) => {
                    let inner = pixel_color(&s.scattered, scene, depth - 1);
                    proof {
                        let left = (depth - 1) as nat;
                        let rest = choose|samples: Seq<ScatterSample>|
                            are_samples(samples, left) && inner == radiance(
                                &s.scattered,
                                scene,
                                left,
                                samples,
                            );
                        let all = seq![first] + rest;
                        assert(all.drop_first() =~= rest);
                        assert(are_samples(all, depth as nat));
                        assert(s.attenuation.mul(inner) == radiance(ray, scene, depth as nat, all));
                    }
                    s.attenuation.mul(inner)
                },
                None => {
                    proof {
                        let all = zeros.update(0, first);
                        assert(are_samples(all, depth as nat));
                        assert(black() == radiance(ray, scene, depth as nat, all));
                    }
                    Vec3::from_bits(ZERO, ZERO, ZERO)
                },
            }
        },
        None => {
            assert(are_samples(zeros, depth as nat));
            sky(ray)
        },
    }
}

} // verus!
