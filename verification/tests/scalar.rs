use cc_abstemious::scalar::{copy_of, Point, Real};

fn num(value: f64) -> Real {
    Real::from_bits(value.to_bits())
}

fn samples() -> Vec<f64> {
    vec![
        0.0,
        -0.0,
        1.0,
        -1.0,
        1.0000000000000002,
        10.0,
        1500.0,
        f64::MIN_POSITIVE,
        5e-324,
        -5e-324,
        f64::MAX,
        f64::MIN,
        f64::INFINITY,
        f64::NEG_INFINITY,
        f64::NAN,
        -f64::NAN,
        f64::from_bits(0x7ff0_0000_0000_0001),
        f64::from_bits(0xfff8_0000_0000_1234),
    ]
}

#[test]
fn bits_are_kept() {
    assert_eq!(Real::from_bits(0x4024_0000_0000_0000).to_bits(), 0x4024_0000_0000_0000);
    assert_eq!(num(10.0).to_bits(), 0x4024_0000_0000_0000);
    assert_eq!(num(10.0).bits, 10.0f64.to_bits());
}

#[test]
fn nan_is_told_from_numbers() {
    for value in samples() {
        assert_eq!(num(value).is_nan(), value.is_nan(), "{value}");
    }
    assert!(!num(f64::INFINITY).is_nan());
    assert!(num(f64::NAN).is_nan());
}

#[test]
fn zero_has_two_signs() {
    for value in samples() {
        assert_eq!(num(value).is_zero(), value == 0.0, "{value}");
    }
    assert!(num(0.0).is_zero());
    assert!(num(-0.0).is_zero());
    assert!(!num(5e-324).is_zero());
}

#[test]
fn equality_is_that_of_the_numbers() {
    for a in samples() {
        for b in samples() {
            assert_eq!(num(a).equals(num(b)), a == b, "{a} {b}");
        }
    }
}

#[test]
fn equality_on_chosen_values() {
    assert!(num(1.0).equals(num(1.0)));
    assert!(num(0.0).equals(num(-0.0)));
    assert!(!num(1.0).equals(num(1.0000000000000002)));
    assert!(!num(1.0).equals(num(-1.0)));
    assert!(!num(f64::NAN).equals(num(f64::NAN)));
    assert!(num(f64::INFINITY).equals(num(f64::INFINITY)));
    assert!(!num(f64::INFINITY).equals(num(f64::NEG_INFINITY)));
}

#[test]
fn points_coincide_in_every_coordinate() {
    let p = Point { x: num(1.0), y: num(0.0), z: num(-2.5) };
    let same = Point { x: num(1.0), y: num(-0.0), z: num(-2.5) };
    let off = Point { x: num(1.0), y: num(0.0), z: num(-2.5000000000000004) };
    let undefined = Point { x: num(f64::NAN), y: num(0.0), z: num(0.0) };
    assert!(p.coincides_with(p));
    assert!(p.coincides_with(same));
    assert!(same.coincides_with(p));
    assert!(!p.coincides_with(off));
    assert!(!undefined.coincides_with(undefined));
}

#[test]
fn copy_keeps_every_value_in_place() {
    let values = vec![num(1.0), num(2.0), num(f64::NAN), num(-0.0)];
    assert_eq!(copy_of(&values), values);
    let empty: Vec<Real> = Vec::new();
    assert_eq!(copy_of(&empty), empty);
}
