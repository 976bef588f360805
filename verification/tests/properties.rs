use nonneg_float::{NonNegative, NonNegative32, NonNegativeError};

#[test]
fn negative_zero_is_accepted_and_equals_zero() {
    let neg = NonNegative::try_new((-0.0f64).to_bits()).unwrap();
    // The pattern is handed back exactly as it was wrapped...
    assert_eq!(neg.get(), (-0.0f64).to_bits());
    assert_ne!(neg.get(), 0.0f64.to_bits());
    // ...but the instance denotes zero and compares equal to it.
    assert_eq!(neg, NonNegative::zero());
    assert!(!(neg < NonNegative::zero()));
    assert!(!(NonNegative::zero() < neg));
}

#[test]
fn negative_infinity_and_negative_nan_are_rejected() {
    assert_eq!(
        NonNegative::try_new(f64::NEG_INFINITY.to_bits()).unwrap_err(),
        NonNegativeError::InvalidValue
    );
    let negative_nan = f64::from_bits(0xFFF8_0000_0000_0001);
    assert!(negative_nan.is_nan());
    assert!(NonNegative::try_new(negative_nan.to_bits()).is_err());
    // The smallest negative subnormal is negative too, although its pattern
    // differs from negative zero by a single bit.
    let negative_subnormal = f64::from_bits(0x8000_0000_0000_0001);
    assert!(negative_subnormal < 0.0);
    assert!(NonNegative::try_new(negative_subnormal.to_bits()).is_err());
}

#[test]
fn largest_and_smallest_finite_values_are_accepted() {
    let max = NonNegative::try_new(f64::MAX.to_bits()).unwrap();
    assert_eq!(max.get(), f64::MAX.to_bits());
    let tiny = NonNegative::try_new(f64::from_bits(1).to_bits()).unwrap();
    assert_eq!(tiny.get(), 1u64);
}

#[test]
fn revalidation_is_idempotent() {
    let first = NonNegative::try_new(3.14f64.to_bits()).unwrap();
    let second = NonNegative::try_new(first.get()).unwrap();
    assert_eq!(first, second);
    assert_eq!(first.get(), second.get());
}

#[test]
fn asserting_constructor_matches_fallible_constructor() {
    let asserted = NonNegative::new(3.14f64.to_bits());
    let fallible = NonNegative::try_new(3.14f64.to_bits()).unwrap();
    assert_eq!(asserted, fallible);
    assert_eq!(asserted.get(), fallible.get());
}

#[test]
fn ordering_follows_the_wrapped_values() {
    let pairs = [
        (0.0f64, 1.5f64),
        (1.5, 2.5),
        (2.5, f64::MAX),
        // Subnormal against subnormal and against the smallest normal.
        (f64::from_bits(1), f64::from_bits(2)),
        (f64::from_bits(7), f64::MIN_POSITIVE),
        (-0.0, f64::from_bits(1)),
        (f64::MIN_POSITIVE, 1.0),
    ];
    for (lo, hi) in pairs {
        assert!(lo < hi);
        let a = NonNegative::try_new(lo.to_bits()).unwrap();
        let b = NonNegative::try_new(hi.to_bits()).unwrap();
        assert!(a < b, "{lo} should order below {hi}");
        assert!(!(b < a));
        assert!(a <= b);
        assert!(b > a);
        assert_ne!(a, b);
        assert_eq!(
            a.partial_cmp(&b),
            Some(std::cmp::Ordering::Less),
            "{lo} against {hi}"
        );
    }
}

#[test]
fn comparison_is_total_on_wrapped_values() {
    let values = [0.0f64, -0.0, f64::from_bits(1), f64::MIN_POSITIVE, 1.0, 3.14, f64::MAX];
    for x in values {
        for y in values {
            let a = NonNegative::try_new(x.to_bits()).unwrap();
            let b = NonNegative::try_new(y.to_bits()).unwrap();
            assert!(a.partial_cmp(&b).is_some());
            assert_eq!(a.partial_cmp(&b), x.partial_cmp(&y));
            assert_eq!(a == b, x == y);
        }
    }
}

#[test]
fn error_message_is_fixed() {
    let message = NonNegativeError::InvalidValue.message();
    assert_eq!(message, "Value must be non-negative and finite");
}

#[test]
fn binary32_accepts_and_rejects_like_binary64() {
    let val = NonNegative32::try_new(2.5f32.to_bits()).unwrap();
    assert_eq!(val.get(), 2.5f32.to_bits());
    assert!(NonNegative32::try_new((-2.5f32).to_bits()).is_err());
    assert!(NonNegative32::try_new(f32::NAN.to_bits()).is_err());
    assert!(NonNegative32::try_new(f32::INFINITY.to_bits()).is_err());
    let neg_zero = NonNegative32::try_new((-0.0f32).to_bits()).unwrap();
    assert_eq!(neg_zero, NonNegative32::zero());
}

#[test]
fn binary32_ordering_follows_the_wrapped_values() {
    let pairs = [(0.0f32, 1.5f32), (1.5, 2.5), (f32::from_bits(1), f32::MIN_POSITIVE)];
    for (lo, hi) in pairs {
        let a = NonNegative32::try_new(lo.to_bits()).unwrap();
        let b = NonNegative32::try_new(hi.to_bits()).unwrap();
        assert!(a < b);
        assert!(!(b < a));
    }
}

#[test]
fn scenario_results_match_the_raw_floats() {
    // try_new(3.14) succeeds and hands 3.14 back exactly.
    let pi_ish = NonNegative::try_new(3.14f64.to_bits()).unwrap();
    assert_eq!(f64::from_bits(pi_ish.get()), 3.14);
    // try_new(-0.1), try_new(NaN), try_new(+inf) all fail.
    assert!(NonNegative::try_new((-0.1f64).to_bits()).is_err());
    assert!(NonNegative::try_new(f64::NAN.to_bits()).is_err());
    assert!(NonNegative::try_new(f64::INFINITY.to_bits()).is_err());
    // zero() then get() is 0.0 and equals the default.
    assert_eq!(f64::from_bits(NonNegative::zero().get()), 0.0);
    assert_eq!(NonNegative::zero(), NonNegative::default());
    assert_eq!(NonNegative32::zero(), NonNegative32::default());
}
