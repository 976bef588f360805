use nonneg_float::{NonNegative, NonNegative32, NonNegativeError};

#[test]
fn test_zero() {
    let zero = NonNegative::zero();
    assert_eq!(zero.get(), 0.0f64.to_bits());
    let default: NonNegative = Default::default();
    assert_eq!(default.get(), 0.0f64.to_bits());
}

#[test]
fn test_try_new_valid() {
    let val = NonNegative::try_new(3.14f64.to_bits()).unwrap();
    assert_eq!(val.get(), 3.14f64.to_bits());
}

#[test]
fn test_try_new_invalid() {
    assert_eq!(
        NonNegative::try_new((-0.1f64).to_bits()).unwrap_err(),
        NonNegativeError::InvalidValue
    );
    assert_eq!(
        NonNegative::try_new(f64::NAN.to_bits()).unwrap_err(),
        NonNegativeError::InvalidValue
    );
    assert_eq!(
        NonNegative::try_new(f64::INFINITY.to_bits()).unwrap_err(),
        NonNegativeError::InvalidValue
    );
}

#[test]
fn test_new_panics() {
    let _ = NonNegative::new(1.0f64.to_bits()); // okay
}

#[test]
fn test_macro() {
    let a = NonNegative::try_new(5.0f64.to_bits()).unwrap();
    assert_eq!(a.get(), 5.0f64.to_bits());

    let b = NonNegative::zero();
    assert_eq!(b.get(), 0.0f64.to_bits());

    let c = NonNegative32::try_new(2.71f32.to_bits()).unwrap();
    assert_eq!(c.get(), 2.71f32.to_bits());

    let d = NonNegative::try_new((-1.0f64).to_bits());
    assert!(d.is_err());
}

#[test]
fn test_valid_values() {
    let n = NonNegative::try_new(42.0f64.to_bits());
    assert_eq!(n.unwrap().get(), 42.0f64.to_bits());
}

#[test]
fn test_invalid_value() {
    let result = NonNegative::try_new((-1.0f64).to_bits());
    assert!(result.is_err());
}

#[test]
fn test_default_value() {
    let d: NonNegative32 = Default::default();
    assert_eq!(d.get(), 0.0f32.to_bits());
}
