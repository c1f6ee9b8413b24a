use pathtracer::scalar::Double;
use pathtracer::utils::{
    clamp, f64_in_range, inside_unit_sphere, near_zero, random_color, random_f64,
    random_f64_range, random_in_hemisphere, random_in_unit_sphere, random_unit_vec3, random_vec3,
    random_vec3_range, reflectance, some_kind_of_gamma, towards, vec3_in_range, TINY,
};
use pathtracer::vec3::{Vec3, Vec4};

fn num(x: f64) -> Double {
    Double::from_bits(x.to_bits())
}

fn float(r: Double) -> f64 {
    f64::from_bits(r.to_bits())
}

fn vec3(x: f64, y: f64, z: f64) -> Vec3 {
    Vec3::new(num(x), num(y), num(z))
}

fn triple(v: Vec3) -> (f64, f64, f64) {
    (float(v.x), float(v.y), float(v.z))
}

#[test]
fn tiny_is_one_hundred_millionth() {
    assert_eq!(f64::from_bits(TINY), 1e-8);
}

#[test]
fn random_f64_lies_in_the_unit_interval() {
    let mut distinct = false;
    let first = float(random_f64());
    for _ in 0..1000 {
        let x = float(random_f64());
        assert!((0.0..1.0).contains(&x));
        assert!(!x.is_sign_negative());
        if x != first {
            distinct = true;
        }
    }
    assert!(distinct);
}

#[test]
fn range_of_a_draw() {
    assert_eq!(float(f64_in_range(num(-0.5), num(0.5), num(0.0))), -0.5);
    assert_eq!(float(f64_in_range(num(-0.5), num(0.5), num(0.5))), 0.0);
    assert_eq!(float(f64_in_range(num(2.0), num(6.0), num(0.25))), 3.0);
    assert_eq!(float(f64_in_range(num(0.1), num(0.7), num(0.3))), 0.1 + (0.7 - 0.1) * 0.3);
    assert_eq!(
        triple(vec3_in_range(num(-1.0), num(1.0), vec3(0.0, 0.5, 0.75))),
        (-1.0, 0.0, 0.5)
    );
}

#[test]
fn random_ranges_stay_in_range() {
    for _ in 0..1000 {
        let x = float(random_f64_range(num(-3.0), num(5.0)));
        assert!((-3.0..5.0).contains(&x));
        let v = random_vec3_range(num(-0.5), num(0.5));
        for c in [v.x, v.y, v.z] {
            assert!((-0.5..0.5).contains(&float(c)));
        }
        let u = random_vec3();
        for c in [u.x, u.y, u.z] {
            assert!((0.0..1.0).contains(&float(c)));
        }
        let k = random_color();
        for c in [k.x, k.y, k.z] {
            assert!((0.0..1.0).contains(&float(c)));
        }
    }
}

#[test]
fn clamp_brings_into_the_range() {
    assert_eq!(float(clamp(num(-0.2), num(0.0), num(1.0))), 0.0);
    assert_eq!(float(clamp(num(1.7), num(0.0), num(1.0))), 1.0);
    assert_eq!(float(clamp(num(0.3), num(0.0), num(1.0))), 0.3);
    assert_eq!(float(clamp(num(0.0), num(0.0), num(1.0))), 0.0);
    assert_eq!(float(clamp(num(1.0), num(0.0), num(1.0))), 1.0);
    assert!(float(clamp(num(f64::NAN), num(0.0), num(1.0))).is_nan());
    assert_eq!(float(clamp(num(f64::INFINITY), num(0.0), num(1.0))), 1.0);
}

#[test]
fn near_zero_on_every_axis() {
    assert!(near_zero(&vec3(0.0, 0.0, 0.0)));
    assert!(near_zero(&vec3(9e-9, -9e-9, 1e-12)));
    assert!(!near_zero(&vec3(1e-8, 0.0, 0.0)));
    assert!(!near_zero(&vec3(0.0, -2e-8, 0.0)));
    assert!(!near_zero(&vec3(0.0, 0.0, 1.0)));
    assert!(!near_zero(&vec3(f64::NAN, 0.0, 0.0)));
}

#[test]
fn gamma_takes_the_root_of_the_colours() {
    let v = Vec4::new(num(0.25), num(0.81), num(0.0), num(0.5));
    let g = some_kind_of_gamma(&v);
    assert_eq!((float(g.x), float(g.y), float(g.z), float(g.w)), (0.5, 0.9, 0.0, 0.5));
}

#[test]
fn reflectance_is_schlicks() {
    let expect = |cosine: f64, ratio: f64| -> f64 {
        let r = (ratio - 1.0) / (ratio + 1.0);
        let r0 = r * r;
        let x = 1.0 - cosine;
        r0 + (1.0 - r0) * (x * x * x * x * x)
    };
    for (cosine, ratio) in [(1.0, 1.5), (0.0, 1.5), (0.3, 1.0 / 1.5), (0.9, 2.4), (0.5, 1.0)] {
        assert_eq!(float(reflectance(num(cosine), num(ratio))), expect(cosine, ratio));
    }
    assert_eq!(float(reflectance(num(1.0), num(1.0))), 0.0);
    assert_eq!(float(reflectance(num(0.0), num(1.5))), 1.0);
    assert!((float(reflectance(num(1.0), num(1.5))) - 0.04).abs() < 1e-12);
}

#[test]
fn inside_the_unit_sphere() {
    assert!(inside_unit_sphere(vec3(0.0, 0.0, 0.0)));
    assert!(inside_unit_sphere(vec3(0.5, 0.5, 0.5)));
    assert!(!inside_unit_sphere(vec3(1.0, 0.0, 0.0)));
    assert!(!inside_unit_sphere(vec3(0.6, 0.8, 0.1)));
}

#[test]
fn points_drawn_in_the_unit_sphere() {
    assert!(random_in_unit_sphere(0).is_none());
    assert!(random_unit_vec3(0).is_none());
    assert!(random_in_hemisphere(&vec3(0.0, 1.0, 0.0), 0).is_none());
    for _ in 0..200 {
        let p = random_in_unit_sphere(10_000).unwrap();
        let (x, y, z) = triple(p);
        assert!((x * x + y * y + z * z).sqrt() < 1.0);
        let u = random_unit_vec3(10_000).unwrap();
        let (x, y, z) = triple(u);
        assert!(((x * x + y * y + z * z).sqrt() - 1.0).abs() < 1e-12);
        let h = random_in_hemisphere(&vec3(0.0, 1.0, 0.0), 10_000).unwrap();
        assert!(float(h.y) >= 0.0);
        let (x, y, z) = triple(h);
        assert!((x * x + y * y + z * z).sqrt() < 1.0);
    }
}

#[test]
fn one_attempt_finds_a_point_or_none() {
    let mut found = 0;
    let mut missed = 0;
    for _ in 0..2000 {
        match random_in_unit_sphere(1) {
            Some(p) => {
                assert!(inside_unit_sphere(p));
                for c in [p.x, p.y, p.z] {
                    assert!((-1.0..1.0).contains(&float(c)));
                }
                found += 1;
            }
            None => missed += 1,
        }
    }
    assert!(found > 0 && missed > 0);
}

#[test]
fn towards_the_side_of_the_normal() {
    let n = vec3(0.0, 1.0, 0.0);
    assert_eq!(triple(towards(vec3(0.3, 0.2, -0.1), &n)), (0.3, 0.2, -0.1));
    assert_eq!(triple(towards(vec3(0.3, -0.2, -0.1), &n)), (-0.3, 0.2, 0.1));
    assert_eq!(triple(towards(vec3(0.3, 0.0, -0.1), &n)), (-0.3, -0.0, 0.1));
}
