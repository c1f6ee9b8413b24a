//! A cheap integrator for previews: a few bounces, each lit from one fixed
//! direction.

use crate::camera::{Camera, CameraView};
use crate::integrator::{black, material_index_at, sky};
use crate::intersect::{world_hit, HitPayload, T_MIN};
use crate::ray::Ray;
use crate::scalar::{Double, HALF, MAX, MINUS_HALF, MINUS_ONE, ONE, ZERO};
use crate::scene::{Material, Scene};
use crate::utils::{in_unit_cube, random_f64, random_vec3, vec3_in_range};
use crate::vec3::{Vec3, Vec4};
use vstd::prelude::*;

verus! {

/// The number of bounces that the preview follows.
pub const BOUNCES: u32 = 5;

/// `bounces` vectors of draws from `[0, 1)`.
pub open spec fn are_draws(draws: Seq<Vec3>, bounces: nat) -> bool {
    draws.len() == bounces && forall|i: int| 0 <= i < bounces ==> in_unit_cube(#[trigger] draws[i])
}

/// The direction of the light, of length one: down, left and away.
pub open spec fn light_direction() -> Vec3 {
    Vec3::from_bits(MINUS_ONE, MINUS_ONE, MINUS_ONE).normalize()
}

/// How much of the light a surface of the given normal receives: the
/// cosine of the angle between the normal and the way to the light, or zero
/// for a surface that faces away.
pub open spec fn spec_light_intensity(normal: Vec3) -> Double {
    let d = normal.dot(light_direction().neg());
    if d.gt(Double { bits: ZERO }) {
        d
    } else {
        Double { bits: ZERO }
    }
}

/// The ray that leaves the surface: from the point of the record, which
/// the intersector has moved off the surface, in the direction of the
/// incoming ray mirrored at the normal plus `roughness` times a vector that
/// `draws` picks from the cube from -0.5 to 0.5.
pub open spec fn spec_bounce(r: &Ray, payload: &HitPayload, material: &Material, draws: Vec3) -> Ray {
    let jitter = vec3_in_range(Double { bits: MINUS_HALF }, Double { bits: HALF }, draws);
    Ray {
        origin: payload.world_position,
        direction: r.direction.reflect(payload.world_normal.add(jitter.scale(material.roughness))),
    }
}

/// The colour that the preview has for `ray` after `bounces` more bounces,
/// where `color` was gathered so far and the next contribution counts by
/// `multiplier`.
///
/// The spheres are found by the intersector that the full integrator uses,
/// [`world_hit`] between [`T_MIN`] and the largest double. A ray that hits
/// nothing adds the sky and ends. A ray that hits a sphere adds the albedo
/// of its material times the light it receives, and goes on, mirrored, with
/// half the multiplier.
pub open spec fn preview_from(
    ray: &Ray,
    scene: &Scene,
    bounces: nat,
    multiplier: Double,
    color: Vec3,
    draws: Seq<Vec3>,
) -> Vec3
    decreases bounces,
{
    if bounces == 0 {
        color
    } else {
        match world_hit(scene, ray, Double { bits: T_MIN }, Double { bits: MAX }) {
            None => color.add(sky(ray).scale(multiplier)),
            Some(payload) => {
                let material = scene.materials@[material_index_at(scene, &payload)];
                let lit = color.add(
                    material.albedo.scale(spec_light_intensity(payload.world_normal)).scale(
                        multiplier,
                    ),
                );
                preview_from(
                    &spec_bounce(ray, &payload, &material, draws[0]),
                    scene,
                    (bounces - 1) as nat,
                    multiplier.mul(Double { bits: HALF }),
                    lit,
                    draws.drop_first(),
                )
            },
        }
    }
}

/// The colour that the preview has for `ray` with `bounces` bounces.
pub open spec fn preview_radiance(ray: &Ray, scene: &Scene, bounces: nat, draws: Seq<Vec3>) -> Vec3 {
    preview_from(ray, scene, bounces, Double { bits: ONE }, black(), draws)
}

/// How much of the light a surface of the given normal receives.
#[verifier::when_used_as_spec(spec_light_intensity)]
pub fn light_intensity(normal: Vec3) -> (r: Double)
    ensures
        r == spec_light_intensity(normal),
{
    let light_dir = Vec3::from_bits(MINUS_ONE, MINUS_ONE, MINUS_ONE).normalize();
    let d = normal.dot(light_dir.neg());
    // The maximum of a zero and a zero may have either sign.
    d.max(Double::from_bits(ZERO)).abs()
}

/// The ray that leaves the surface, perturbed by `draws`.
#[verifier::when_used_as_spec(spec_bounce)]
pub fn bounce(r: &Ray, payload: &HitPayload, material: &Material, draws: Vec3) -> (next: Ray)
    ensures
        next == spec_bounce(r, payload, material, draws),
{
    let jitter = vec3_in_range(Double::from_bits(MINUS_HALF), Double::from_bits(HALF), draws);
    let new_origin = payload.world_position;
    let new_direction = r.direction().reflect(
        payload.world_normal.add(jitter.scale(material.roughness)),
    );
    Ray::new(new_origin, new_direction)
}

fn preview_steps_with(
    ray: &Ray,
    scene: &Scene,
    bounces: u32,
    multiplier: Double,
    color: Vec3,
    draws: &Vec<Vec3>,
    start: usize,
) -> (r: Vec3)
    requires
        scene.wf(),
        start + bounces <= draws.len(),
    ensures
        r == preview_from(ray, scene, bounces as nat, multiplier, color, draws@.skip(start as int)),
    decreases bounces,
{
    if bounces == 0 {
        return color;
    }
    let payload = match world_hit(scene, ray, Double::from_bits(T_MIN), Double::from_bits(MAX)) {
        Some(payload) => payload,
        None => {
            return color.add(sky(ray).scale(multiplier));
        },
    };
    let sphere = &scene.spheres[payload.object_index];
    let material = &scene.materials[sphere.material_index()];
    let lit = color.add(
        material.albedo.scale(light_intensity(payload.world_normal)).scale(multiplier),
    );
    assert(draws@.skip(start as int)[0] == draws@[start as int]);
    assert(draws@.skip(start as int).drop_first() =~= draws@.skip(start + 1));
    let next = bounce(ray, &payload, material, draws[start]);
    preview_steps_with(
        &next,
        scene,
        bounces - 1,
        multiplier.mul(Double::from_bits(HALF)),
        lit,
        draws,
        start + 1,
    )
}

/// The colour that the preview has for `ray` with `bounces` bounces, where
/// the bounce of number `i` is perturbed by `draws[i]`.
pub fn preview_with(ray: &Ray, scene: &Scene, bounces: u32, draws: &Vec<Vec3>) -> (r: Vec3)
    requires
        scene.wf(),
        bounces <= draws.len(),
    ensures
        r == preview_radiance(ray, scene, bounces as nat, draws@),
{
    assert(draws@.skip(0) =~= draws@);
    preview_steps_with(
        ray,
        scene,
        bounces,
        Double::from_bits(ONE),
        Vec3::from_bits(ZERO, ZERO, ZERO),
        draws,
        0,
    )
}

fn preview_steps(ray: &Ray, scene: &Scene, bounces: u32, multiplier: Double, color: Vec3) -> (r: Vec3)
    requires
        scene.wf(),
    ensures
        exists|draws: Seq<Vec3>|
            are_draws(draws, bounces as nat) && r == preview_from(
                ray,
                scene,
                bounces as nat,
                multiplier,
                color,
                draws,
            ),
    decreases bounces,
{
    let ghost zeros = Seq::new(bounces as nat, |i: int| Vec3::from_bits(ZERO, ZERO, ZERO));
    if bounces == 0 {
        assert(are_draws(zeros, 0));
        return color;
    }
    let payload = match world_hit(scene, ray, Double::from_bits(T_MIN), Double::from_bits(MAX)) {
        Some(payload) => payload,
        None => {
            assert(are_draws(zeros, bounces as nat));
            return color.add(sky(ray).scale(multiplier));
        },
    };
    let sphere = &scene.spheres[payload.object_index];
    let material = &scene.materials[sphere.material_index()];
    let lit = color.add(
        material.albedo.scale(light_intensity(payload.world_normal)).scale(multiplier),
    );
    let first = random_vec3();
    let next = bounce(ray, &payload, material, first);
    let half = multiplier.mul(Double::from_bits(HALF));
    let r = preview_steps(&next, scene, bounces - 1, half, lit);
    proof {
        let left = (bounces - 1) as nat;
        let rest = choose|draws: Seq<Vec3>|
            are_draws(draws, left) && r == preview_from(&next, scene, left, half, lit, draws);
        let all = seq![first] + rest;
        assert(all.drop_first() =~= rest);
        assert(are_draws(all, bounces as nat));
        assert(r == preview_from(ray, scene, bounces as nat, multiplier, color, all));
    }
    r
}

/// `sample` is light that the preview may find for the pixel of column `x`
/// and row `y`: the preview colour, with [`BOUNCES`] bounces, along a ray
/// through some place inside the pixel, for some draws at the bounces.
pub open spec fn is_preview_sample(
    camera: CameraView,
    scene: &Scene,
    width: usize,
    height: usize,
    x: usize,
    y: usize,
    sample: Vec4,
) -> bool {
    exists|du: Double, dv: Double, draws: Seq<Vec3>|
        du.in_unit_interval() && dv.in_unit_interval() && are_draws(draws, BOUNCES as nat) && sample
            == Vec4::from_color(
            preview_radiance(
                &camera.pixel_ray(width, height, x, y, du, dv),
                scene,
                BOUNCES as nat,
                draws,
            ),
        )
}

/// The sample of the preview for the pixel of column `x` and row `y` of an
/// image of `width` by `height` pixels, with draws made on the spot.
pub fn per_pixel(x: usize, y: usize, width: usize, height: usize, camera: &Camera, scene: &Scene) -> (r:
    Vec4)
    requires
        scene.wf(),
    ensures
        is_preview_sample(camera@, scene, width, height, x, y, r),
{
    let du = random_f64();
    let dv = random_f64();
    let ray = camera.get_pixel_ray(width, height, x, y, du, dv);
    let color = preview_steps(
        &ray,
        scene,
        BOUNCES,
        Double::from_bits(ONE),
        Vec3::from_bits(ZERO, ZERO, ZERO),
    );
    proof {
        let bounces = BOUNCES as nat;
        let one = Double { bits: ONE };
        let draws = choose|draws: Seq<Vec3>|
            are_draws(draws, bounces) && color == preview_from(
                &ray,
                scene,
                bounces,
                one,
                black(),
                draws,
            );
        assert(color == preview_radiance(
            &camera@.pixel_ray(width, height, x, y, du, dv),
            scene,
            bounces,
            draws,
        ));
    }
    Vec4::from_color(color)
}

} // verus!
