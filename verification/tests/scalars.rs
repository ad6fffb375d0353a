use std140::{boolean, float, int32, uint, ReprStd140, Std140ArrayElement};

#[test]
fn scalar_layout_table() {
    assert_eq!(4, float::alignment());
    assert_eq!(4, float::size());
    assert_eq!(4, int32::alignment());
    assert_eq!(4, int32::size());
    assert_eq!(4, uint::alignment());
    assert_eq!(4, uint::size());
    assert_eq!(4, boolean::alignment());
    assert_eq!(4, boolean::size());
}

#[test]
fn boolean_is_stored_as_a_4_byte_discriminant() {
    assert_eq!(1, boolean::True.bits());
    assert_eq!(0, boolean::False.bits());
}

#[test]
fn boolean_from_uint() {
    assert_eq!(boolean::from(uint(1)), boolean::True);
    assert_eq!(boolean::from(uint(0)), boolean::False);
    assert_eq!(boolean::from(uint(u32::MAX)), boolean::True);
}

#[test]
fn boolean_from_int32() {
    assert_eq!(boolean::from(int32(-5)), boolean::True);
    assert_eq!(boolean::from(int32(1)), boolean::True);
    assert_eq!(boolean::from(int32(0)), boolean::False);
}

#[test]
fn boolean_from_float_is_false_only_on_zero() {
    assert_eq!(boolean::from(float(1.5f32.to_bits())), boolean::True);
    assert_eq!(boolean::from(float((-2.0f32).to_bits())), boolean::True);
    assert_eq!(boolean::from(float(0.0f32.to_bits())), boolean::False);
    // A negative zero compares equal to zero, so it converts to False too.
    assert_eq!(boolean::from(float((-0.0f32).to_bits())), boolean::False);
    assert_eq!(boolean::from(float(f32::NAN.to_bits())), boolean::True);
}

#[test]
fn boolean_roundtrips_native_truth_values() {
    assert_eq!(boolean::from(true), boolean::True);
    assert_eq!(boolean::from(false), boolean::False);
    assert!(boolean::from(true).as_bool());
    assert!(!boolean::from(false).as_bool());
}

#[test]
fn float_stores_the_exact_bit_pattern() {
    let v = float(3.25f32.to_bits());
    assert_eq!(3.25f32, f32::from_bits(v.0));
    assert_eq!(std140::FLOAT_ONE_BITS, 1.0f32.to_bits());
    assert_eq!(std140::FLOAT_ZERO_BITS, 0.0f32.to_bits());
}
