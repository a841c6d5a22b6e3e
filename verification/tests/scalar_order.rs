use pathtracer::scalar::Scalar;
use pathtracer::scalar::{INFINITY_BITS, ONE_BITS, SIGN_BIT};

fn s(x: f32) -> Scalar {
    Scalar::from_bits(x.to_bits())
}

fn samples() -> Vec<f32> {
    vec![
        0.0,
        -0.0,
        1.0,
        -1.0,
        0.001,
        -0.001,
        0.5,
        2.5,
        -2.5,
        1.0e-45,
        -1.0e-45,
        1.17549435e-38,
        3.0e38,
        f32::MAX,
        f32::MIN,
        f32::INFINITY,
        f32::NEG_INFINITY,
        f32::NAN,
        -f32::NAN,
        f32::EPSILON,
        255.999,
    ]
}

#[test]
fn constants_are_the_patterns_they_name() {
    assert_eq!(ONE_BITS, 1.0f32.to_bits());
    assert_eq!(INFINITY_BITS, f32::INFINITY.to_bits());
    assert_eq!(SIGN_BIT, (-0.0f32).to_bits());
}

#[test]
fn bits_round_trip() {
    assert_eq!(Scalar::from_bits(0x3f00_0000).to_bits(), 0x3f00_0000);
    assert_eq!(s(0.5).to_bits(), 0x3f00_0000);
}

#[test]
fn nan_is_recognised() {
    for x in samples() {
        assert_eq!(s(x).nan(), x.is_nan(), "{}", x);
    }
    assert!(Scalar::from_bits(0x7f80_0001).nan());
    assert!(Scalar::from_bits(0xffff_ffff).nan());
    assert!(!Scalar::from_bits(0xff80_0000).nan());
}

#[test]
fn order_key_values() {
    assert_eq!(s(0.0).order_key(), 0);
    assert_eq!(s(-0.0).order_key(), 0);
    assert_eq!(s(1.0).order_key(), 0x3f80_0000);
    assert_eq!(s(-1.0).order_key(), -0x3f80_0000);
    assert_eq!(s(f32::MAX).order_key(), 0x7f7f_ffff);
}

#[test]
fn comparisons_agree_with_the_hardware() {
    for a in samples() {
        for b in samples() {
            assert_eq!(s(a).lt(s(b)), a < b, "{} < {}", a, b);
            assert_eq!(s(a).le(s(b)), a <= b, "{} <= {}", a, b);
            assert_eq!(s(a).gt(s(b)), a > b, "{} > {}", a, b);
            assert_eq!(s(a).ge(s(b)), a >= b, "{} >= {}", a, b);
        }
    }
}

#[test]
fn zeros_are_equal_and_nan_is_unordered() {
    assert!(s(0.0).le(s(-0.0)));
    assert!(s(-0.0).le(s(0.0)));
    assert!(!s(-0.0).lt(s(0.0)));
    assert!(!s(f32::NAN).le(s(f32::NAN)));
    assert!(!s(f32::NAN).ge(s(0.0)));
}

#[test]
fn negation_flips_the_sign_bit_only() {
    for x in samples() {
        assert_eq!(s(x).negated().to_bits(), (-x).to_bits(), "{}", x);
        assert_eq!(s(x).negated().order_key(), -s(x).order_key());
    }
}
