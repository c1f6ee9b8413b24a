use pathtracer::integrator::{pixel_color, pixel_color_with, sky, MAX_DEPTH};
use pathtracer::intersect::{world_hit, T_MIN};
use pathtracer::ray::Ray;
use pathtracer::scalar::Double;
use pathtracer::scatter::{scatter_with, ScatterSample};
use pathtracer::scene::{hittable_scene, Material, Scene, Sphere};
use pathtracer::vec3::Vec3;

fn num(x: f64) -> Double {
    Double::from_bits(x.to_bits())
}

fn float(r: Double) -> f64 {
    f64::from_bits(r.to_bits())
}

fn vec3(x: f64, y: f64, z: f64) -> Vec3 {
    Vec3::new(num(x), num(y), num(z))
}

fn triple(v: Vec3) -> (f64, f64, f64) {
    (float(v.x), float(v.y), float(v.z))
}

fn sky_formula(direction: (f64, f64, f64)) -> (f64, f64, f64) {
    let d: f64 = (direction.0 * direction.0 + direction.1 * direction.1) + direction.2 * direction.2;
    let s = 1.0 / d.sqrt();
    let t = 0.5 * (direction.1 * s + 1.0);
    (1.0 * (1.0 - t) + 0.5 * t, 1.0 * (1.0 - t) + 0.7 * t, 1.0 * (1.0 - t) + 1.0 * t)
}

fn one_sphere() -> Scene {
    Scene::from_parts(
        vec![Sphere::new(vec3(0.0, 0.0, -1.0), num(0.5), 0)],
        vec![Material::opaque(vec3(0.8, 0.3, 0.3), num(1.0))],
    )
    .ok()
    .unwrap()
}

fn half_samples(n: usize) -> Vec<ScatterSample> {
    vec![ScatterSample { jitter: vec3(0.5, 0.5, 0.5), fresnel: num(0.5) }; n]
}

#[test]
fn constants_of_the_integrator() {
    assert_eq!(f64::from_bits(T_MIN), 0.001);
    assert_eq!(MAX_DEPTH, 50);
}

#[test]
fn the_sky_is_a_gradient() {
    for d in [(0.0, 1.0, 0.0), (0.0, -1.0, 0.0), (1.0, 0.0, 0.0), (0.3, 0.4, -2.0), (-7.0, 2.5, 1.0)] {
        let ray = Ray::new(vec3(1.0, 2.0, 3.0), vec3(d.0, d.1, d.2));
        assert_eq!(triple(sky(&ray)), sky_formula(d));
    }
    let up = Ray::new(vec3(0.0, 0.0, 0.0), vec3(0.0, 1.0, 0.0));
    assert_eq!(triple(sky(&up)), (0.5, 0.7, 1.0));
    let down = Ray::new(vec3(0.0, 0.0, 0.0), vec3(0.0, -3.0, 0.0));
    assert_eq!(triple(sky(&down)), (1.0, 1.0, 1.0));
}

#[test]
fn without_depth_there_is_no_light() {
    let ray = Ray::new(vec3(0.0, 0.0, 0.0), vec3(0.0, 0.0, -1.0));
    let miss = Ray::new(vec3(0.0, 0.0, 0.0), vec3(0.0, 1.0, 0.0));
    for scene in [one_sphere(), Scene::new(), hittable_scene(), Scene::from_parts(vec![], vec![]).ok().unwrap()] {
        assert_eq!(triple(pixel_color(&ray, &scene, 0)), (0.0, 0.0, 0.0));
        assert_eq!(triple(pixel_color(&miss, &scene, 0)), (0.0, 0.0, 0.0));
        assert_eq!(triple(pixel_color_with(&ray, &scene, 0, &vec![])), (0.0, 0.0, 0.0));
    }
}

#[test]
fn a_ray_that_misses_sees_the_sky_at_any_depth() {
    let scene = one_sphere();
    for d in [(0.0, 1.0, 0.0), (1.0, 0.2, -0.3), (0.0, 0.0, 1.0), (0.9, 0.9, -1.0)] {
        let ray = Ray::new(vec3(0.0, 0.0, 0.0), vec3(d.0, d.1, d.2));
        assert!(world_hit(&scene, &ray, num(0.001), num(f64::MAX)).is_none());
        for depth in [1, 2, 5, 50] {
            assert_eq!(triple(pixel_color(&ray, &scene, depth)), sky_formula(d));
            assert_eq!(
                triple(pixel_color_with(&ray, &scene, depth, &half_samples(50))),
                sky_formula(d)
            );
        }
    }
}

#[test]
fn one_bounce_brings_the_sky_times_the_albedo() {
    let scene = one_sphere();
    let ray = Ray::new(vec3(0.0, 0.0, 0.0), vec3(0.0, 0.0, -1.0));
    let samples = half_samples(2);
    let rec = world_hit(&scene, &ray, num(0.001), num(f64::MAX)).unwrap();
    let s = scatter_with(&scene.materials[0], &ray, &rec, &samples[0]).unwrap();
    assert_eq!(triple(s.scattered.direction), (0.0, 0.0, 1.0));
    let beyond = sky_formula((0.0, 0.0, 1.0));
    assert_eq!(
        triple(pixel_color_with(&ray, &scene, 2, &samples)),
        (0.8 * beyond.0, 0.3 * beyond.1, 0.3 * beyond.2)
    );
    assert_eq!(triple(pixel_color_with(&ray, &scene, 1, &samples)), (0.0 * 0.8, 0.0 * 0.3, 0.0 * 0.3));
}

#[test]
fn a_swallowed_ray_brings_nothing() {
    let scene = one_sphere();
    let ray = Ray::new(vec3(0.0, 0.0, 0.0), vec3(0.0, 0.0, -1.0));
    let sideways = vec![ScatterSample { jitter: vec3(0.0, 0.0, 0.999), fresnel: num(0.0) }; 5];
    let rec = world_hit(&scene, &ray, num(0.001), num(f64::MAX)).unwrap();
    let s = scatter_with(&scene.materials[0], &ray, &rec, &sideways[0]);
    if s.is_none() {
        assert_eq!(triple(pixel_color_with(&ray, &scene, 5, &sideways)), (0.0, 0.0, 0.0));
    } else {
        let c = triple(pixel_color_with(&ray, &scene, 5, &sideways));
        assert!(c.0 <= 0.8 && c.1 <= 0.3 && c.2 <= 0.3);
    }
}

#[test]
fn light_is_never_more_than_the_albedo_lets_through() {
    let scene = one_sphere();
    let ray = Ray::new(vec3(0.0, 0.0, 0.0), vec3(0.05, -0.02, -1.0));
    for _ in 0..200 {
        let (r, g, b) = triple(pixel_color(&ray, &scene, MAX_DEPTH));
        assert!((0.0..=0.8).contains(&r));
        assert!((0.0..=0.3).contains(&g));
        assert!((0.0..=0.3).contains(&b));
    }
}

#[test]
fn the_large_scene_gives_colours() {
    let scene = hittable_scene();
    for k in 0..50 {
        let ray = Ray::new(vec3(13.0, 2.0, 3.0), vec3(-13.0, -2.0 + 0.05 * k as f64, -3.0));
        let (r, g, b) = triple(pixel_color(&ray, &scene, MAX_DEPTH));
        assert!((0.0..=1.0).contains(&r) && (0.0..=1.0).contains(&g) && (0.0..=1.0).contains(&b));
    }
}
