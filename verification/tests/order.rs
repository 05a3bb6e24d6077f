use close_to::{Binary32, Binary64, FloatBits};

fn wide_samples() -> Vec<f64> {
    vec![
        0.0,
        -0.0,
        5e-324,
        -5e-324,
        f64::MIN_POSITIVE,
        -f64::MIN_POSITIVE,
        f64::MIN_POSITIVE - 5e-324,
        0.00005,
        0.0005,
        0.00009999999999998899,
        0.5,
        1.0,
        -1.0,
        1.0 + f64::EPSILON,
        1.5,
        2.0,
        -2.0,
        1.0e300,
        f64::MAX,
        f64::MIN,
        f64::INFINITY,
        f64::NEG_INFINITY,
        f64::NAN,
        -f64::NAN,
        f64::from_bits(0x7ff0_0000_0000_0001),
        f64::from_bits(0xffff_ffff_ffff_ffff),
    ]
}

fn narrow_samples() -> Vec<f32> {
    vec![
        0.0,
        -0.0,
        1e-45,
        -1e-45,
        f32::MIN_POSITIVE,
        -f32::MIN_POSITIVE,
        f32::MIN_POSITIVE - 1e-45,
        0.0005,
        0.5,
        1.0,
        -1.0,
        1.0 + f32::EPSILON,
        2.0,
        -2.0,
        1.0e30,
        f32::MAX,
        f32::MIN,
        f32::INFINITY,
        f32::NEG_INFINITY,
        f32::NAN,
        -f32::NAN,
        f32::from_bits(0x7f80_0001),
        f32::from_bits(0xffff_ffff),
    ]
}

#[test]
fn wide_order_is_that_of_the_numbers() {
    for &x in &wide_samples() {
        for &y in &wide_samples() {
            let decided = Binary64 { bits: x.to_bits() }.le(Binary64 { bits: y.to_bits() });
            assert_eq!(decided, x <= y, "{} <= {}", x, y);
        }
    }
}

#[test]
fn narrow_order_is_that_of_the_numbers() {
    for &x in &narrow_samples() {
        for &y in &narrow_samples() {
            let decided = Binary32 { bits: x.to_bits() }.le(Binary32 { bits: y.to_bits() });
            assert_eq!(decided, x <= y, "{} <= {}", x, y);
        }
    }
}

#[test]
fn wide_abs_clears_the_sign() {
    for &x in &wide_samples() {
        assert_eq!(Binary64 { bits: x.to_bits() }.abs().bits, x.abs().to_bits());
    }
    assert_eq!(Binary64 { bits: 0x8000_0000_0000_0000 }.abs().bits, 0);
    assert_eq!(Binary64 { bits: 0xbff0_0000_0000_0000 }.abs().bits, 0x3ff0_0000_0000_0000);
}

#[test]
fn narrow_abs_clears_the_sign() {
    for &x in &narrow_samples() {
        assert_eq!(Binary32 { bits: x.to_bits() }.abs().bits, x.abs().to_bits());
    }
    assert_eq!(Binary32 { bits: 0x8000_0000 }.abs().bits, 0);
    assert_eq!(Binary32 { bits: 0xbf80_0000 }.abs().bits, 0x3f80_0000);
}

#[test]
fn zeros_are_equal_in_order() {
    let plus = Binary64 { bits: 0 };
    let minus = Binary64 { bits: 0x8000_0000_0000_0000 };
    assert!(plus.le(minus));
    assert!(minus.le(plus));
    assert!(minus.le(minus));
}

#[test]
fn nothing_is_ordered_against_not_a_number() {
    let nan = Binary64 { bits: 0x7ff8_0000_0000_0000 };
    let one = Binary64 { bits: 0x3ff0_0000_0000_0000 };
    assert!(!nan.le(nan));
    assert!(!nan.le(one));
    assert!(!one.le(nan));
}
