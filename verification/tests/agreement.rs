use pathtracer::scalar::{Double, NAN};
use pathtracer::vec3::Vec3;

fn num(x: f64) -> Double {
    Double::from_bits(x.to_bits())
}

fn same(r: Double, x: f64) -> bool {
    if x.is_nan() {
        r.to_bits() == NAN
    } else {
        r.to_bits() == x.to_bits()
    }
}

fn any_double() -> f64 {
    let bits: u64 = rand::random();
    match rand::random::<u8>() % 4 {
        0 => f64::from_bits(bits),
        1 => (rand::random::<f64>() - 0.5) * 4.0,
        2 => (rand::random::<f64>() - 0.5) * 2000.0,
        _ => {
            let specials = [0.0, -0.0, 1.0, -1.0, f64::INFINITY, f64::NEG_INFINITY, f64::NAN, f64::MAX, f64::MIN_POSITIVE, 5e-324];
            specials[(bits % 10) as usize]
        }
    }
}

fn moderate() -> f64 {
    (rand::random::<f64>() - 0.5) * 20.0
}

#[test]
fn scalars_agree_with_doubles_on_random_values() {
    for _ in 0..20_000 {
        let a = any_double();
        let b = any_double();
        assert!(same(num(a).add(num(b)), a + b), "{a:?} + {b:?}");
        assert!(same(num(a).sub(num(b)), a - b), "{a:?} - {b:?}");
        assert!(same(num(a).mul(num(b)), a * b), "{a:?} * {b:?}");
        assert!(same(num(a).div(num(b)), a / b), "{a:?} / {b:?}");
        assert!(same(num(a).sqrt(), a.sqrt()), "sqrt {a:?}");
        assert!(same(num(a).neg(), -a), "neg {a:?}");
        assert!(same(num(a).abs(), a.abs()), "abs {a:?}");
        assert!(same(num(a).radians(), a * (std::f64::consts::PI / 180.0)), "radians {a:?}");
        assert_eq!(num(a).lt(num(b)), a < b, "{a:?} < {b:?}");
        assert_eq!(num(a).le(num(b)), a <= b, "{a:?} <= {b:?}");
        assert_eq!(num(a).gt(num(b)), a > b, "{a:?} > {b:?}");
        assert_eq!(num(a).ge(num(b)), a >= b, "{a:?} >= {b:?}");
        assert_eq!(num(a).is_nan(), a.is_nan());
        assert_eq!(num(a).is_negative(), a.is_sign_negative());
        assert_eq!(num(a).to_byte(), a as u8);
        let least = num(a).min(num(b));
        let most = num(a).max(num(b));
        if a.is_nan() {
            assert!(same(least, b) && same(most, b));
        } else if b.is_nan() {
            assert!(same(least, a) && same(most, a));
        } else if a < b {
            assert!(same(least, a) && same(most, b));
        } else if b < a {
            assert!(same(least, b) && same(most, a));
        } else {
            assert!(same(least, a) || same(least, b));
            assert!(same(most, a) || same(most, b));
        }
    }
}

#[test]
fn integers_agree_with_casts_on_random_values() {
    for _ in 0..20_000 {
        let n: usize = rand::random();
        let shift = rand::random::<u32>() % 64;
        let n = n >> shift;
        assert_eq!(Double::from_usize(n).to_bits(), (n as f64).to_bits());
        let i: i32 = rand::random();
        assert_eq!(Double::from_i32(i).to_bits(), (i as f64).to_bits());
    }
}

#[test]
fn vectors_agree_with_the_formulas_on_random_values() {
    for round in 0..20_000 {
        let wild = round % 4 == 0;
        let pick = || if wild { any_double() } else { moderate() };
        let (ax, ay, az) = (pick(), pick(), pick());
        let (bx, by, bz) = (pick(), pick(), pick());
        let eta = pick();
        let a = Vec3::new(num(ax), num(ay), num(az));
        let b = Vec3::new(num(bx), num(by), num(bz));

        let dot = (ax * bx + ay * by) + az * bz;
        assert!(same(a.dot(b), dot));

        let c = a.cross(b);
        assert!(same(c.x, ay * bz - by * az));
        assert!(same(c.y, az * bx - bz * ax));
        assert!(same(c.z, ax * by - bx * ay));

        let square = (ax * ax + ay * ay) + az * az;
        assert!(same(a.length(), square.sqrt()));

        let s = 1.0 / square.sqrt();
        let n = a.normalize();
        assert!(same(n.x, ax * s) && same(n.y, ay * s) && same(n.z, az * s));

        let d = (bx * ax + by * ay) + bz * az;
        let k = d + d;
        let r = a.reflect(b);
        assert!(same(r.x, ax - bx * k) && same(r.y, ay - by * k) && same(r.z, az - bz * k));

        let under = 1.0 - eta * eta * (1.0 - d * d);
        let t = a.refract(b, num(eta));
        if under < 0.0 {
            assert!(same(t.x, 0.0) && same(t.y, 0.0) && same(t.z, 0.0));
        } else {
            let f = eta * d + under.sqrt();
            assert!(same(t.x, ax * eta - bx * f));
            assert!(same(t.y, ay * eta - by * f));
            assert!(same(t.z, az * eta - bz * f));
        }

        let sum = a.add(b);
        assert!(same(sum.x, ax + bx) && same(sum.y, ay + by) && same(sum.z, az + bz));
        let diff = a.sub(b);
        assert!(same(diff.x, ax - bx) && same(diff.y, ay - by) && same(diff.z, az - bz));
        let scaled = a.scale(num(eta));
        assert!(same(scaled.x, ax * eta) && same(scaled.y, ay * eta) && same(scaled.z, az * eta));
        let over = a.div(num(eta));
        assert!(same(over.x, ax / eta) && same(over.y, ay / eta) && same(over.z, az / eta));
    }
}
