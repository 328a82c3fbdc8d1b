use raytrace::scalar::Scalar;

fn s(x: f64) -> Scalar {
    Scalar::from_bits(x.to_bits())
}

fn grid() -> Vec<f64> {
    vec![
        0.0,
        -0.0,
        1.0,
        -1.0,
        0.5,
        -0.5,
        0.001,
        0.999,
        1e-8,
        -1e-8,
        1e-300,
        f64::from_bits(1),
        -f64::from_bits(1),
        f64::from_bits(0x000f_ffff_ffff_ffff),
        f64::MIN_POSITIVE,
        f64::MAX,
        f64::MIN,
        f64::INFINITY,
        f64::NEG_INFINITY,
        f64::NAN,
        f64::from_bits(0xfff8_0000_0000_0001),
        f64::from_bits(0x7ff0_0000_0000_0001),
        255.744,
        0.49999999999999994,
        0.5000000000000001,
        1.5,
        2.5,
        3.5,
        4503599627370495.5,
        9007199254740992.0,
        9007199254740993.0,
        1e10,
        123456.789,
        9223372036854775808.0,
        1e19,
        18446744073709549568.0,
        18446744073709551616.0,
        3e19,
        1e40,
        675.0000000000001,
        674.9999999999999,
    ]
}

#[test]
fn bits_round_trip() {
    for x in grid() {
        assert_eq!(s(x).to_bits(), x.to_bits());
        assert_eq!(s(x).bits, x.to_bits());
    }
    assert_eq!(Scalar::zero().to_bits(), 0.0f64.to_bits());
    assert_eq!(Scalar::one().to_bits(), 1.0f64.to_bits());
}

#[test]
fn order_agrees_with_hardware() {
    for a in grid() {
        for b in grid() {
            assert_eq!(s(a).lt(s(b)), a < b, "{} < {}", a, b);
            assert_eq!(s(a).le(s(b)), a <= b, "{} <= {}", a, b);
            assert_eq!(s(a).gt(s(b)), a > b, "{} > {}", a, b);
            assert_eq!(s(a).ge(s(b)), a >= b, "{} >= {}", a, b);
            assert_eq!(s(a) == s(b), a == b, "{} == {}", a, b);
            assert_eq!(s(a) != s(b), a != b, "{} != {}", a, b);
        }
    }
}

#[test]
fn zeros_are_equal_and_nan_equals_nothing() {
    assert!(s(0.0) == s(-0.0));
    assert!(!s(0.0).lt(s(-0.0)));
    assert!(!s(-0.0).lt(s(0.0)));
    assert!(s(-0.0).le(s(0.0)));
    assert!(s(f64::NAN) != s(f64::NAN));
    assert!(!s(f64::NAN).le(s(f64::NAN)));
    assert!(!s(f64::NAN).lt(s(f64::INFINITY)));
    assert!(!s(f64::NEG_INFINITY).gt(s(f64::NAN)));
}

#[test]
fn sign_operations_agree_with_hardware() {
    for x in grid() {
        assert_eq!(s(x).neg().to_bits(), (-x).to_bits());
        assert_eq!(s(x).abs().to_bits(), x.abs().to_bits());
        assert_eq!(s(x).is_nan(), x.is_nan());
    }
    assert_eq!(s(1.5).neg().to_bits(), (-1.5f64).to_bits());
    assert_eq!(s(-1.5).abs().to_bits(), 1.5f64.to_bits());
}

#[test]
fn truncation_agrees_with_hardware() {
    for x in grid() {
        assert_eq!(s(x).to_u64_scaled(0), x as u64, "{}", x);
        assert_eq!(s(x).to_u64_scaled(1), (x * 2.0) as u64, "2 * {}", x);
        assert_eq!(s(x).to_u64_scaled(8), (x * 256.0) as u64, "256 * {}", x);
    }
}

#[test]
fn truncation_exact_values() {
    assert_eq!(s(0.999).to_u64_scaled(8), 255);
    assert_eq!(s(0.5).to_u64_scaled(8), 128);
    assert_eq!(s(1.0).to_u64_scaled(8), 256);
    assert_eq!(s(3.99).to_u64_scaled(0), 3);
    assert_eq!(s(-3.99).to_u64_scaled(0), 0);
    assert_eq!(s(f64::NAN).to_u64_scaled(0), 0);
    assert_eq!(s(f64::INFINITY).to_u64_scaled(0), u64::MAX);
    assert_eq!(s(f64::from_bits(1)).to_u64_scaled(1074), 1);
    assert_eq!(s(f64::from_bits(1)).to_u64_scaled(1073), 0);
    assert_eq!(s(f64::from_bits(3)).to_u64_scaled(1200), u64::MAX);
    assert_eq!(s(18446744073709549568.0).to_u64_scaled(0), 18446744073709549568);
    assert_eq!(s(18446744073709551616.0).to_u64_scaled(0), u64::MAX);
}

#[test]
fn rounding_agrees_with_hardware() {
    for x in grid() {
        assert_eq!(s(x).round_to_u64(), x.round() as u64, "{}", x);
    }
}

#[test]
fn rounding_exact_values() {
    assert_eq!(s(0.0).round_to_u64(), 0);
    assert_eq!(s(0.4).round_to_u64(), 0);
    assert_eq!(s(0.5).round_to_u64(), 1);
    assert_eq!(s(1.5).round_to_u64(), 2);
    assert_eq!(s(2.5).round_to_u64(), 3);
    assert_eq!(s(2.4999).round_to_u64(), 2);
    assert_eq!(s(675.0).round_to_u64(), 675);
    assert_eq!(s(674.9999999999999).round_to_u64(), 675);
    assert_eq!(s(-2.5).round_to_u64(), 0);
    assert_eq!(s(f64::NAN).round_to_u64(), 0);
    assert_eq!(s(1e40).round_to_u64(), u64::MAX);
    assert_eq!(s(9223372036854775808.0).round_to_u64(), 9223372036854775808);
}
