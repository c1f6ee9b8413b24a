use pathtracer::scalar::Double;
use pathtracer::scene::{hittable_scene, Material, Scene, SceneError, Sphere};
use pathtracer::vec3::Vec3;

fn num(x: f64) -> Double {
    Double::from_bits(x.to_bits())
}

fn float(r: Double) -> f64 {
    f64::from_bits(r.to_bits())
}

fn vec3(x: f64, y: f64, z: f64) -> Vec3 {
    Vec3::new(num(x), num(y), num(z))
}

fn triple(v: Vec3) -> (f64, f64, f64) {
    (float(v.x), float(v.y), float(v.z))
}

#[test]
fn default_material_is_white_and_matt() {
    let m = Material::default();
    assert_eq!(triple(m.albedo), (1.0, 1.0, 1.0));
    assert_eq!(float(m.roughness), 1.0);
    assert_eq!(float(m.metallic), 0.0);
    assert!(!m.glass);
    assert_eq!(float(m.refraction_index), 1.0);
}

#[test]
fn opaque_and_dielectric_materials() {
    let m = Material::opaque(vec3(0.8, 0.3, 0.3), num(0.25));
    assert_eq!(triple(m.albedo), (0.8, 0.3, 0.3));
    assert_eq!(float(m.roughness), 0.25);
    assert!(!m.glass);
    assert_eq!(float(m.refraction_index), 1.0);
    let g = Material::dielectric(num(1.5));
    assert!(g.glass);
    assert_eq!(float(g.refraction_index), 1.5);
    assert_eq!(triple(g.albedo), (1.0, 1.0, 1.0));
}

#[test]
fn sphere_getters() {
    let s = Sphere::new(vec3(1.0, 2.0, 3.0), num(0.5), 7);
    assert_eq!(triple(*s.center()), (1.0, 2.0, 3.0));
    assert_eq!(float(s.radius()), 0.5);
    assert_eq!(s.material_index(), 7);
    assert!(s.radius_is_positive());
    assert!(!Sphere::new(vec3(0.0, 0.0, 0.0), num(0.0), 0).radius_is_positive());
    assert!(!Sphere::new(vec3(0.0, 0.0, 0.0), num(-1.0), 0).radius_is_positive());
    assert!(!Sphere::new(vec3(0.0, 0.0, 0.0), num(f64::NAN), 0).radius_is_positive());
}

#[test]
fn the_scene_to_start_from() {
    let scene = Scene::new();
    assert_eq!(scene.spheres.len(), 2);
    assert_eq!(scene.materials.len(), 2);
    assert_eq!(triple(scene.spheres[0].center), (0.0, 0.0, -2.0));
    assert_eq!(float(scene.spheres[0].radius), 1.0);
    assert_eq!(scene.spheres[0].material_index, 0);
    assert_eq!(triple(scene.spheres[1].center), (0.0, -101.0, -2.0));
    assert_eq!(float(scene.spheres[1].radius), 100.0);
    assert_eq!(scene.spheres[1].material_index, 1);
    assert_eq!(triple(scene.materials[0].albedo), (1.0, 0.0, 1.0));
    assert_eq!(float(scene.materials[0].roughness), 0.0);
    assert_eq!(triple(scene.materials[1].albedo), (0.2, 0.3, 1.0));
    assert_eq!(float(scene.materials[1].roughness), 0.1);
    assert!(scene.is_well_formed());
    assert_eq!(scene.validate(), Ok(()));
}

#[test]
fn adding_materials_and_spheres() {
    let mut scene = Scene::new();
    let m = scene.add_material(Material::dielectric(num(1.5)));
    assert_eq!(m, 2);
    assert_eq!(scene.materials.len(), 3);
    assert!(scene.materials[2].glass);
    let s = scene.add_sphere(Sphere::new(vec3(0.0, 1.0, 0.0), num(1.0), m));
    assert_eq!(s, 2);
    assert_eq!(scene.spheres.len(), 3);
    assert_eq!(scene.spheres[2].material_index, 2);
    assert!(scene.is_well_formed());
    scene.add_sphere(Sphere::new(vec3(0.0, 1.0, 0.0), num(1.0), 3));
    assert!(!scene.is_well_formed());
    assert_eq!(scene.validate(), Err(SceneError::MaterialIndex(3)));
}

#[test]
fn validation_names_the_first_fault() {
    let good = Material::default();
    let ball = |radius: f64, material: usize| Sphere::new(vec3(0.0, 0.0, 0.0), num(radius), material);

    let r = Scene::from_parts(vec![ball(1.0, 0), ball(0.0, 5)], vec![good]);
    assert_eq!(r.err(), Some(SceneError::Radius(1)));

    let r = Scene::from_parts(vec![ball(1.0, 0), ball(-2.0, 0)], vec![good]);
    assert_eq!(r.err(), Some(SceneError::Radius(1)));

    let r = Scene::from_parts(vec![ball(1.0, 1), ball(0.0, 0)], vec![good]);
    assert_eq!(r.err(), Some(SceneError::MaterialIndex(0)));

    let rough = Material::opaque(vec3(1.0, 1.0, 1.0), num(1.5));
    let r = Scene::from_parts(vec![ball(1.0, 0)], vec![good, rough]);
    assert_eq!(r.err(), Some(SceneError::Roughness(1)));

    let negative = Material::opaque(vec3(1.0, 1.0, 1.0), num(-0.1));
    let r = Scene::from_parts(vec![], vec![negative]);
    assert_eq!(r.err(), Some(SceneError::Roughness(0)));

    let thin = Material::dielectric(num(0.9));
    let r = Scene::from_parts(vec![ball(1.0, 0)], vec![thin, rough]);
    assert_eq!(r.err(), Some(SceneError::RefractionIndex(0)));

    let r = Scene::from_parts(vec![ball(1.0, 0), ball(0.5, 1)], vec![good, Material::dielectric(num(1.5))]);
    let scene = r.ok().unwrap();
    assert_eq!(scene.spheres.len(), 2);
    assert_eq!(scene.materials.len(), 2);
    assert!(scene.is_well_formed());

    let empty = Scene::from_parts(vec![], vec![]).ok().unwrap();
    assert!(empty.is_well_formed());
    assert_eq!(empty.validate(), Ok(()));
}

#[test]
fn material_ranges() {
    assert!(Material::default().roughness_in_range());
    assert!(Material::default().refraction_in_range());
    assert!(Material::opaque(vec3(0.0, 0.0, 0.0), num(0.0)).roughness_in_range());
    assert!(!Material::opaque(vec3(0.0, 0.0, 0.0), num(1.0000001)).roughness_in_range());
    assert!(!Material::opaque(vec3(0.0, 0.0, 0.0), num(f64::NAN)).roughness_in_range());
    assert!(!Material::dielectric(num(0.999)).refraction_in_range());
    assert!(Material::dielectric(num(2.4)).refraction_in_range());
}

#[test]
fn the_large_scene() {
    for _ in 0..5 {
        let world = hittable_scene();
        let n = world.spheres.len();
        assert!((6..=490).contains(&n));
        assert!(n > 400);
        assert_eq!(world.materials.len(), n);
        assert!(world.is_well_formed());
        assert_eq!(world.validate(), Ok(()));
        for (i, s) in world.spheres.iter().enumerate() {
            assert_eq!(s.material_index, i);
        }
        assert_eq!(triple(world.spheres[0].center), (0.0, 0.0, -2.0));
        assert_eq!(triple(world.spheres[2].center), (0.0, -1000.0, 0.0));
        assert_eq!(float(world.spheres[2].radius), 1000.0);
        assert_eq!(triple(world.materials[2].albedo), (0.5, 0.5, 0.5));
        for i in 3..n - 3 {
            let s = &world.spheres[i];
            let m = &world.materials[i];
            assert_eq!(float(s.radius), 0.2);
            assert_eq!(float(s.center.y), 0.2);
            assert!((-11.0..10.9).contains(&float(s.center.x)));
            assert!((-11.0..10.9).contains(&float(s.center.z)));
            let dx = float(s.center.x) - 4.0;
            let dz = float(s.center.z);
            assert!((dx * dx + dz * dz).sqrt() > 0.9);
            if m.glass {
                assert_eq!(float(m.refraction_index), 1.5);
            } else {
                assert!((0.0..=1.0).contains(&float(m.roughness)));
            }
        }
        assert_eq!(triple(world.spheres[n - 3].center), (0.0, 1.0, 0.0));
        assert!(world.materials[n - 3].glass);
        assert_eq!(float(world.materials[n - 3].refraction_index), 1.5);
        assert_eq!(triple(world.spheres[n - 2].center), (-4.0, 1.0, 0.0));
        assert_eq!(triple(world.materials[n - 2].albedo), (0.4, 0.2, 0.1));
        assert_eq!(float(world.materials[n - 2].roughness), 1.0);
        assert_eq!(triple(world.spheres[n - 1].center), (4.0, 1.0, 0.0));
        assert_eq!(triple(world.materials[n - 1].albedo), (0.7, 0.6, 0.5));
        assert_eq!(float(world.materials[n - 1].roughness), 0.0);
        assert_eq!(float(world.spheres[n - 1].radius), 1.0);
    }
}
