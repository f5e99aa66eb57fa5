use arbiscan::double::{pow2_u128, Double};

fn d(x: f64) -> Double {
    Double::from_bits(x.to_bits())
}

fn samples() -> Vec<f64> {
    vec![
        0.0,
        -0.0,
        1.0,
        -1.0,
        0.5,
        1.5,
        2.0,
        19_999.99,
        20_000.0,
        1e6,
        1e18,
        1.5e18,
        3.4e38,
        3.5e38,
        1e300,
        -1e300,
        f64::MIN_POSITIVE,
        f64::MIN_POSITIVE / 4.0,
        -f64::MIN_POSITIVE / 4.0,
        f64::MAX,
        f64::MIN,
        f64::INFINITY,
        f64::NEG_INFINITY,
        f64::NAN,
        -f64::NAN,
        f64::EPSILON,
        123456789.123456789,
        -987654321.987654321,
        340282366920938463463374607431768211455.0,
        18446744073709551616.0,
        4503599627370496.0,
        9007199254740993.0,
    ]
}

#[test]
fn bits_round_trip() {
    for x in samples() {
        assert_eq!(d(x).to_bits(), x.to_bits());
    }
}

#[test]
fn classification_agrees_with_the_machine() {
    for x in samples() {
        assert_eq!(d(x).is_nan(), x.is_nan(), "is_nan {x}");
        assert_eq!(d(x).is_finite(), x.is_finite(), "is_finite {x}");
        assert_eq!(d(x).is_negative(), x.is_sign_negative(), "is_negative {x}");
    }
}

#[test]
fn order_agrees_with_the_machine() {
    for x in samples() {
        for y in samples() {
            assert_eq!(d(x).lt(d(y)), x < y, "{x} < {y}");
            assert_eq!(d(x).gt(d(y)), x > y, "{x} > {y}");
            assert_eq!(d(x).le(d(y)), x <= y, "{x} <= {y}");
            assert_eq!(d(x).ge(d(y)), x >= y, "{x} >= {y}");
        }
    }
}

#[test]
fn min_agrees_with_the_machine() {
    for x in samples() {
        for y in samples() {
            let m = f64::from_bits(d(x).min(d(y)).to_bits());
            let want = x.min(y);
            if want.is_nan() {
                assert!(m.is_nan());
            } else {
                // the two zeros count as one number
                assert!(m == want, "min({x}, {y}) = {m}, want {want}");
            }
        }
    }
}

#[test]
fn min_of_a_number_and_nan_is_the_number() {
    assert_eq!(d(f64::NAN).min(d(7.0)), d(7.0));
    assert_eq!(d(7.0).min(d(f64::NAN)), d(7.0));
    assert!(d(f64::NAN).min(d(f64::NAN)).is_nan());
}

#[test]
fn whole_numbers_are_exact() {
    for n in [0u32, 1, 2, 3, 4, 5, 50, 100, 150, 300, 500, 1000, 1250, 20_000, 50_000, 200_000, 1_000_000, 16_777_217, u32::MAX - 1, u32::MAX] {
        assert_eq!(Double::from_u32(n).to_bits(), (n as f64).to_bits(), "{n}");
    }
}

#[test]
fn truncation_agrees_with_the_machine() {
    for x in samples() {
        assert_eq!(d(x).to_u128(), x as u128, "{x}");
    }
}

#[test]
fn truncation_exact_values() {
    assert_eq!(d(1.5).to_u128(), 1);
    assert_eq!(d(0.999).to_u128(), 0);
    assert_eq!(d(1.5e18).to_u128(), 1_500_000_000_000_000_000);
    assert_eq!(d(-3.0).to_u128(), 0);
    assert_eq!(d(f64::NAN).to_u128(), 0);
    assert_eq!(d(f64::INFINITY).to_u128(), u128::MAX);
    assert_eq!(d(1e39).to_u128(), u128::MAX);
    assert_eq!(d(340282366920938463463374607431768211455.0).to_u128(), u128::MAX);
    assert_eq!(d(170141183460469231731687303715884105728.0).to_u128(), 1u128 << 127);
    assert_eq!(d(9007199254740992.0).to_u128(), 9007199254740992);
}

#[test]
fn powers_of_two() {
    assert_eq!(pow2_u128(0), 1);
    assert_eq!(pow2_u128(1), 2);
    assert_eq!(pow2_u128(75), 1u128 << 75);
    assert_eq!(pow2_u128(127), 1u128 << 127);
}

#[test]
fn equality_is_identity_of_bits() {
    assert_ne!(d(0.0), d(-0.0));
    assert_eq!(d(1.0), d(1.0));
    assert!(!d(0.0).lt(d(-0.0)) && !d(-0.0).lt(d(0.0)));
}
