//! How a material sends on a ray that has hit it.

use crate::intersect::HitPayload;
use crate::ray::Ray;
use crate::scalar::{Double, HALF, MINUS_HALF, ONE, ZERO};
use crate::scene::{Material, Scene};
use crate::utils::{in_unit_cube, near_zero, random_f64, random_vec3, reflectance, vec3_in_range};
use crate::vec3::Vec3;
use vstd::prelude::*;

verus! {

/// What chance adds to one scattering: three draws that perturb the normal
/// of a surface that is no glass, and one that decides between reflection
/// and refraction at glass.
#[derive(Clone, Copy, PartialEq, Eq, Structural, Debug)]
pub struct ScatterSample {
    pub jitter: Vec3,
    pub fresnel: Double,
}

/// The ray that leaves the surface and the share of each colour channel
/// that it carries on.
#[derive(Clone, Copy, PartialEq, Eq, Structural, Debug)]
pub struct Scatter {
    pub attenuation: Vec3,
    pub scattered: Ray,
}

impl ScatterSample {
    /// Every draw lies in `[0, 1)`.
    pub open spec fn wf(&self) -> bool {
        in_unit_cube(self.jitter) && self.fresnel.in_unit_interval()
    }

    /// The sample of four draws that are all zero.
    pub open spec fn spec_zero() -> ScatterSample {
        ScatterSample { jitter: Vec3::from_bits(ZERO, ZERO, ZERO), fresnel: Double { bits: ZERO } }
    }

    /// The sample of four draws that are all zero.
    #[verifier::when_used_as_spec(spec_zero)]
    pub fn zero() -> (r: ScatterSample)
        ensures
            r == ScatterSample::spec_zero(),
            r.wf(),
    {
        ScatterSample { jitter: Vec3::from_bits(ZERO, ZERO, ZERO), fresnel: Double::from_bits(ZERO) }
    }
}

/// The cosine of the angle between the ray and the normal that opposes it,
/// capped at 1: `min(dot(-unit, normal), 1)`.
pub open spec fn cos_theta(unit_direction: Vec3, normal: Vec3) -> Double {
    let d = unit_direction.neg().dot(normal);
    if d.lt(Double { bits: ONE }) {
        d
    } else {
        Double { bits: ONE }
    }
}

/// The ratio of the refractive indices on the way of the ray: into the
/// sphere `1 / index`, out of it `index`.
pub open spec fn refraction_ratio(material: &Material, rec: &HitPayload) -> Double {
    if rec.front_face {
        Double { bits: ONE }.div(material.refraction_index)
    } else {
        material.refraction_index
    }
}

/// Glass reflects where Snell's law has no solution, `ratio * sin > 1`, and
/// where Schlick's reflectance is above the draw.
pub open spec fn reflects(material: &Material, r_in: &Ray, rec: &HitPayload, draw: Double) -> bool {
    let ratio = refraction_ratio(material, rec);
    let cos = cos_theta(r_in.direction.normalize(), rec.world_normal);
    let one = Double { bits: ONE };
    let sin = one.sub(cos.mul(cos)).sqrt();
    ratio.mul(sin).gt(one) || reflectance(cos, ratio).gt(draw)
}

/// The direction in which glass sends the ray on.
pub open spec fn dielectric_direction(
    material: &Material,
    r_in: &Ray,
    rec: &HitPayload,
    draw: Double,
) -> Vec3 {
    let unit = r_in.direction.normalize();
    if reflects(material, r_in, rec, draw) {
        unit.reflect(rec.world_normal)
    } else {
        unit.refract(rec.world_normal, refraction_ratio(material, rec))
    }
}

/// The direction in which a surface that is no glass sends the ray on: the
/// mirror image of the ray at the normal plus `roughness` times a vector
/// that the draws pick from the cube from -0.5 to 0.5; the normal itself
/// where that image is nearly zero.
pub open spec fn rough_direction(
    material: &Material,
    r_in: &Ray,
    rec: &HitPayload,
    draws: Vec3,
) -> Vec3 {
    let jitter = vec3_in_range(Double { bits: MINUS_HALF }, Double { bits: HALF }, draws);
    let mirrored = r_in.direction.normalize().reflect(
        rec.world_normal.add(jitter.scale(material.roughness)),
    );
    if near_zero(&mirrored) {
        rec.world_normal
    } else {
        mirrored
    }
}

/// What becomes of the ray `r_in` that has hit a surface of `material` at
/// `rec`, with the draws of `sample`.
///
/// Glass tints nothing and always sends the ray on. Any other material
/// tints by its albedo, and swallows the ray where the new direction does
/// not leave the surface.
pub open spec fn spec_scatter_with(
    material: &Material,
    r_in: &Ray,
    rec: &HitPayload,
    sample: &ScatterSample,
) -> Option<Scatter> {
    if material.glass {
        Some(
            Scatter {
                attenuation: Vec3::from_bits(ONE, ONE, ONE),
                scattered: Ray {
                    origin: rec.world_position,
                    direction: dielectric_direction(material, r_in, rec, sample.fresnel),
                },
            },
        )
    } else {
        let direction = rough_direction(material, r_in, rec, sample.jitter);
        if direction.dot(rec.world_normal).gt(Double { bits: ZERO }) {
            Some(
                Scatter {
                    attenuation: material.albedo,
                    scattered: Ray { origin: rec.world_position, direction },
                },
            )
        } else {
            None
        }
    }
}

/// `min(d, 1)`, which has one value only: 1 has one bit pattern.
fn capped_at_one(d: Double) -> (r: Double)
    ensures
        r == (if d.lt(Double { bits: ONE }) {
            d
        } else {
            Double { bits: ONE }
        }),
{
    d.min(Double::from_bits(ONE))
}

/// What becomes of the ray `r_in` that has hit a surface of `material` at
/// `rec`, with the draws of `sample`.
#[verifier::when_used_as_spec(spec_scatter_with)]
pub fn scatter_with(
    material: &Material,
    r_in: &Ray,
    rec: &HitPayload,
    sample: &ScatterSample,
) -> (r: Option<Scatter>)
    ensures
        r == spec_scatter_with(material, r_in, rec, sample),
{
    if material.glass {
        let one = Double::from_bits(ONE);
        let refraction_ratio = if rec.front_face {
            one.div(material.refraction_index)
        } else {
            material.refraction_index
        };
        let unit_direction = r_in.direction().normalize();
        let cos_theta = capped_at_one(unit_direction.neg().dot(rec.world_normal));
        let sin_theta = one.sub(cos_theta.mul(cos_theta)).sqrt();

        let cannot_refract = refraction_ratio.mul(sin_theta).gt(one);
        let direction = if cannot_refract || reflectance(cos_theta, refraction_ratio).gt(
            sample.fresnel,
        ) {
            unit_direction.reflect(rec.world_normal)
        } else {
            unit_direction.refract(rec.world_normal, refraction_ratio)
        };
        return Some(
            Scatter {
                attenuation: Vec3::from_bits(ONE, ONE, ONE),
                scattered: Ray::new(rec.world_position, direction),
            },
        );
    }
    let jitter = vec3_in_range(Double::from_bits(MINUS_HALF), Double::from_bits(HALF), sample.jitter);
    let mut scatter_direction = r_in.direction().normalize().reflect(
        rec.world_normal.add(jitter.scale(material.roughness)),
    );
    if near_zero(&scatter_direction) {
        scatter_direction = rec.world_normal;
    }
    if scatter_direction.dot(rec.world_normal).gt(Double::from_bits(ZERO)) {
        Some(
            Scatter {
                attenuation: material.albedo,
                scattered: Ray::new(rec.world_position, scatter_direction),
            },
        )
    } else {
        None
    }
}

/// The draws that the material needs: one for glass, three for any other.
/// The draws that it does not need are zero.
pub fn draw_sample(material: &Material) -> (r: ScatterSample)
    ensures
        r.wf(),
        material.glass ==> r.jitter == Vec3::from_bits(ZERO, ZERO, ZERO),
        !material.glass ==> r.fresnel == (Double { bits: ZERO }),
{
    if material.glass {
        ScatterSample { jitter: Vec3::from_bits(ZERO, ZERO, ZERO), fresnel: random_f64() }
    } else {
        ScatterSample { jitter: random_vec3(), fresnel: Double::from_bits(ZERO) }
    }
}

/// What becomes of the ray `r_in` that has hit a sphere of the material of
/// index `material_index` at `rec`, with draws made on the spot.
pub fn scatter(material_index: usize, scene: &Scene, r_in: &Ray, rec: &HitPayload) -> (r: Option<
    Scatter,
>)
    requires
        material_index < scene.materials@.len(),
    ensures
        exists|sample: ScatterSample|
            sample.wf() && r == spec_scatter_with(
                &scene.materials@[material_index as int],
                r_in,
                rec,
                &sample,
            ),
        scene.materials@[material_index as int].glass ==> r.is_some(),
        r matches Some(s) ==> s.scattered.origin == rec.world_position && s.attenuation == (
        if scene.materials@[material_index as int].glass {
            Vec3::from_bits(ONE, ONE, ONE)
        } else {
            scene.materials@[material_index as int].albedo
        }),
{
    let material = &scene.materials[material_index];
    let sample = draw_sample(material);
    scatter_with(material, r_in, rec, &sample)
}

} // verus!
