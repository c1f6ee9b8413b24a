//! A path tracer for scenes of spheres.
//!
//! A [`camera::Camera`] turns a point of the image into a ray,
//! [`intersect`] finds the nearest sphere of a [`scene::Scene`] that the ray
//! meets, [`scatter`] sends the ray on as the material of the sphere has it,
//! and [`integrator`] follows the ray from bounce to bounce until it leaves
//! for the sky or its bounces are used up. A [`renderer::Renderer`] adds one
//! such sample to every pixel in each pass and shows the mean, and [`ppm`]
//! writes the image out as text.
//!
//! Numbers are doubles, held by their bits: see [`scalar`]. What a function
//! computes is stated over the named operations on doubles. What chance
//! decides is a parameter of the function that states the result, and the
//! function that draws says that its result is the stated one for some
//! draws.

pub mod aabb;
pub mod bvh;
pub mod camera;
pub mod integrator;
pub mod intersect;
pub mod ppm;
pub mod preview;
pub mod ray;
pub mod renderer;
pub mod scalar;
pub mod scatter;
pub mod scene;
pub mod utils;
pub mod vec3;
