use pathtracer::scalar::{Double, BYTE_MAX, DEGREE, HALF, INFINITY, MAX, MINUS_HALF, MINUS_ONE, NAN, ONE, TWO, ZERO};

fn num(x: f64) -> Double {
    Double::from_bits(x.to_bits())
}

fn float(r: Double) -> f64 {
    f64::from_bits(r.to_bits())
}

fn samples() -> Vec<f64> {
    vec![
        0.0,
        -0.0,
        1.0,
        -1.0,
        0.5,
        -0.5,
        1e-8,
        -1e-8,
        5e-324,
        -5e-324,
        255.0,
        1e300,
        -1e300,
        f64::MAX,
        f64::MIN,
        f64::INFINITY,
        f64::NEG_INFINITY,
        f64::NAN,
        -f64::NAN,
        f64::from_bits(0x7FF0_0000_0000_0001),
    ]
}

fn same(r: Double, x: f64) -> bool {
    if x.is_nan() {
        r.to_bits() == NAN
    } else {
        r.to_bits() == x.to_bits()
    }
}

#[test]
fn constants_are_the_doubles_they_name() {
    assert_eq!(f64::from_bits(ZERO), 0.0);
    assert_eq!(f64::from_bits(ONE), 1.0);
    assert_eq!(f64::from_bits(TWO), 2.0);
    assert_eq!(f64::from_bits(HALF), 0.5);
    assert_eq!(f64::from_bits(MINUS_HALF), -0.5);
    assert_eq!(f64::from_bits(MINUS_ONE), -1.0);
    assert_eq!(f64::from_bits(BYTE_MAX), 255.0);
    assert_eq!(f64::from_bits(MAX), f64::MAX);
    assert_eq!(f64::from_bits(INFINITY), f64::INFINITY);
    assert_eq!(f64::from_bits(DEGREE), std::f64::consts::PI / 180.0);
    assert!(f64::from_bits(NAN).is_nan());
}

#[test]
fn arithmetic_is_that_of_doubles() {
    for a in samples() {
        for b in samples() {
            assert!(same(num(a).add(num(b)), a + b), "{a} + {b}");
            assert!(same(num(a).sub(num(b)), a - b), "{a} - {b}");
            assert!(same(num(a).mul(num(b)), a * b), "{a} * {b}");
            assert!(same(num(a).div(num(b)), a / b), "{a} / {b}");
        }
        assert!(same(num(a).sqrt(), a.sqrt()), "sqrt {a}");
    }
}

#[test]
fn exact_sums_and_products() {
    assert_eq!(float(num(0.1).add(num(0.2))), 0.30000000000000004);
    assert_eq!(float(num(1.5).mul(num(4.0))), 6.0);
    assert_eq!(float(num(1.0).div(num(3.0))), 0.3333333333333333);
    assert_eq!(float(num(2.0).sqrt()), 1.4142135623730951);
    assert_eq!(float(num(7.0).sub(num(9.5))), -2.5);
}

#[test]
fn a_nan_result_is_the_one_nan() {
    assert_eq!(num(0.0).div(num(0.0)).to_bits(), NAN);
    assert_eq!(num(-1.0).sqrt().to_bits(), NAN);
    assert_eq!(num(f64::INFINITY).sub(num(f64::INFINITY)).to_bits(), NAN);
    assert_eq!(num(f64::from_bits(0xFFF0_0000_0000_0123)).add(num(1.0)).to_bits(), NAN);
    assert_eq!(num(f64::from_bits(0xFFF0_0000_0000_0123)).canonical().to_bits(), NAN);
    assert_eq!(num(-2.5).canonical().to_bits(), (-2.5f64).to_bits());
}

#[test]
fn order_is_that_of_doubles() {
    for a in samples() {
        for b in samples() {
            assert_eq!(num(a).lt(num(b)), a < b, "{a} < {b}");
            assert_eq!(num(a).le(num(b)), a <= b, "{a} <= {b}");
            assert_eq!(num(a).gt(num(b)), a > b, "{a} > {b}");
            assert_eq!(num(a).ge(num(b)), a >= b, "{a} >= {b}");
        }
    }
}

#[test]
fn sign_and_nan_tests() {
    for a in samples() {
        assert_eq!(num(a).is_nan(), a.is_nan(), "{a}");
        assert_eq!(num(a).is_negative(), a.is_sign_negative(), "{a}");
        assert!(same(num(a).neg(), -a), "-{a}");
        assert!(same(num(a).abs(), a.abs()), "abs {a}");
    }
    assert_eq!(num(-3.0).magnitude(), 3.0f64.to_bits());
}

#[test]
fn zero_and_minus_zero_are_equal_in_order_only() {
    assert!(!num(0.0).lt(num(-0.0)));
    assert!(!num(-0.0).lt(num(0.0)));
    assert!(num(0.0).le(num(-0.0)));
    assert!(num(-0.0).le(num(0.0)));
    assert!(num(0.0) != num(-0.0));
}

#[test]
fn integers_become_the_nearest_double() {
    assert_eq!(float(Double::from_usize(0)), 0.0);
    assert_eq!(float(Double::from_usize(1200)), 1200.0);
    assert_eq!(float(Double::from_usize(usize::MAX)), usize::MAX as f64);
    assert_eq!(float(Double::from_usize((1usize << 53) + 1)), 9007199254740992.0);
    assert_eq!(float(Double::from_i32(-11)), -11.0);
    assert_eq!(float(Double::from_i32(i32::MIN)), -2147483648.0);
    assert_eq!(float(Double::from_i32(10)), 10.0);
}

#[test]
fn doubles_become_bytes() {
    assert_eq!(num(0.0).to_byte(), 0);
    assert_eq!(num(254.99).to_byte(), 254);
    assert_eq!(num(255.0).to_byte(), 255);
    assert_eq!(num(1e9).to_byte(), 255);
    assert_eq!(num(-3.0).to_byte(), 0);
    assert_eq!(num(f64::NAN).to_byte(), 0);
    assert_eq!(num(127.5).to_byte(), 127);
}

#[test]
fn min_and_max_prefer_the_number() {
    assert_eq!(float(num(0.25).min(num(1.0))), 0.25);
    assert_eq!(float(num(3.0).min(num(1.0))), 1.0);
    assert_eq!(float(num(f64::NAN).min(num(1.0))), 1.0);
    assert_eq!(float(num(1.0).min(num(f64::NAN))), 1.0);
    assert_eq!(num(f64::NAN).min(num(f64::NAN)).to_bits(), NAN);
    assert_eq!(float(num(-0.5).max(num(0.0))), 0.0);
    assert_eq!(float(num(0.75).max(num(0.0))), 0.75);
    assert_eq!(float(num(f64::NAN).max(num(0.0))), 0.0);
    for a in samples() {
        for b in samples() {
            assert!(same(num(a).min(num(b)), a.min(b)) || (a == b));
            assert!(same(num(a).max(num(b)), a.max(b)) || (a == b));
            if a == b {
                assert_eq!(float(num(a).min(num(b))), a);
                assert_eq!(float(num(a).max(num(b))), a);
            }
        }
    }
}

#[test]
fn radians_of_degrees() {
    assert_eq!(float(num(180.0).radians()), 180.0 * (std::f64::consts::PI / 180.0));
    assert_eq!(float(num(90.0).radians()), 1.5707963267948966);
    assert_eq!(float(num(20.0).radians()), float(num(20.0).mul(Double::from_bits(DEGREE))));
}
