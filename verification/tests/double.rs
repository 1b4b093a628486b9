use chemfiles::double::{
    HIDDEN_BIT, INFINITY_BITS, MINUS_ONE_BITS, RIGHT_ANGLE_BITS, SIGN_BIT, STRAIGHT_ANGLE_BITS,
    ZERO_BITS,
};
use chemfiles::Double;

fn d(x: f64) -> Double {
    Double::from_bits(x.to_bits())
}

fn samples() -> Vec<f64> {
    vec![
        0.0,
        -0.0,
        f64::from_bits(1),
        -f64::from_bits(1),
        f64::MIN_POSITIVE,
        -f64::MIN_POSITIVE,
        f64::from_bits(0x000f_ffff_ffff_ffff),
        1.0e-300,
        0.5,
        1.0,
        -1.0,
        1.0 + f64::EPSILON,
        2.0,
        5.2,
        -45.3,
        89.999,
        90.0,
        179.99999999999997,
        180.0,
        180.00000000000003,
        1.0e300,
        -1.0e300,
        f64::MAX,
        f64::MIN,
        f64::INFINITY,
        f64::NEG_INFINITY,
        f64::NAN,
        -f64::NAN,
        f64::from_bits(0x7ff0_0000_0000_0001),
    ]
}

#[test]
fn bits_round_trip() {
    for x in samples() {
        assert_eq!(d(x).to_bits(), x.to_bits());
        assert_eq!(d(x).bits, x.to_bits());
    }
    assert_eq!(Double::from_bits(0x4056_8000_0000_0000).to_bits(), 90.0f64.to_bits());
}

#[test]
fn named_numbers() {
    assert_eq!(Double::zero().to_bits(), 0.0f64.to_bits());
    assert_eq!(Double::minus_one().to_bits(), (-1.0f64).to_bits());
    assert_eq!(Double::right_angle().to_bits(), 90.0f64.to_bits());
    assert_eq!(Double::straight_angle().to_bits(), 180.0f64.to_bits());
    assert_eq!(ZERO_BITS, 0.0f64.to_bits());
    assert_eq!(MINUS_ONE_BITS, (-1.0f64).to_bits());
    assert_eq!(RIGHT_ANGLE_BITS, 90.0f64.to_bits());
    assert_eq!(STRAIGHT_ANGLE_BITS, 180.0f64.to_bits());
    assert_eq!(INFINITY_BITS, f64::INFINITY.to_bits());
    assert_eq!(SIGN_BIT, (-0.0f64).to_bits());
    assert_eq!(HIDDEN_BIT, 1u64 << 52);
}

#[test]
fn classification_follows_the_numbers() {
    for x in samples() {
        assert_eq!(d(x).is_nan(), x.is_nan(), "is_nan of {:?}", x);
        assert_eq!(d(x).is_finite(), x.is_finite(), "is_finite of {:?}", x);
    }
    assert!(d(f64::NAN).is_nan());
    assert!(!d(f64::INFINITY).is_nan());
    assert!(!d(f64::INFINITY).is_finite());
    assert!(!d(f64::NEG_INFINITY).is_finite());
    assert!(d(f64::MAX).is_finite());
    assert!(d(-0.0).is_finite());
}

#[test]
fn less_than_follows_the_numbers() {
    let all = samples();
    for &x in &all {
        for &y in &all {
            assert_eq!(d(x).lt(d(y)), x < y, "{:?} < {:?}", x, y);
        }
    }
}

#[test]
fn less_than_at_the_edges() {
    assert!(!d(0.0).lt(d(-0.0)));
    assert!(!d(-0.0).lt(d(0.0)));
    assert!(d(-f64::from_bits(1)).lt(d(0.0)));
    assert!(d(-0.0).lt(d(f64::from_bits(1))));
    assert!(d(f64::MAX).lt(d(f64::INFINITY)));
    assert!(d(f64::NEG_INFINITY).lt(d(f64::MIN)));
    assert!(!d(f64::NAN).lt(d(1.0)));
    assert!(!d(1.0).lt(d(f64::NAN)));
    assert!(!d(f64::NAN).lt(d(f64::NAN)));
    assert!(d(-2.0).lt(d(-1.0)));
    assert!(!d(-1.0).lt(d(-2.0)));
    assert!(d(179.99999999999997).lt(Double::straight_angle()));
    assert!(!Double::straight_angle().lt(Double::straight_angle()));
}

#[test]
fn equality_is_on_the_bits() {
    assert_eq!(d(2.5), d(2.5));
    assert_ne!(d(0.0), d(-0.0));
    assert_eq!(d(f64::NAN), d(f64::NAN));
    let copy = d(7.0);
    let other = copy;
    assert_eq!(copy, other.clone());
}
