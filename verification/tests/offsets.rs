use std140::layout::{
    element_alignment, element_stride, is_power_of_two, round_up_checked, validate_struct,
    FieldSchema, LayoutError,
};

fn field(name: &str, alignment: u64, size: u64, offset: u64) -> FieldSchema {
    FieldSchema { name: name.to_string(), alignment, size, offset }
}

#[test]
fn round_up_lands_on_the_next_multiple() {
    assert_eq!(Some(0), round_up_checked(0, 16));
    assert_eq!(Some(16), round_up_checked(1, 16));
    assert_eq!(Some(16), round_up_checked(12, 16));
    assert_eq!(Some(16), round_up_checked(16, 16));
    assert_eq!(Some(32), round_up_checked(17, 16));
    assert_eq!(None, round_up_checked(u64::MAX, 16));
}

#[test]
fn power_of_two_check() {
    assert!(is_power_of_two(1));
    assert!(is_power_of_two(2));
    assert!(is_power_of_two(16));
    assert!(is_power_of_two(1 << 63));
    assert!(!is_power_of_two(0));
    assert!(!is_power_of_two(3));
    assert!(!is_power_of_two(12));
    assert!(!is_power_of_two(u64::MAX));
}

#[test]
fn element_slots_round_to_16_bytes() {
    // Wrapping a 4-byte scalar yields a 16-byte stride, not a 4-byte one.
    assert_eq!(16, element_alignment(4));
    assert_eq!(Some(16), element_stride(4, 4));
    // A 12-byte, 16-byte-aligned element also occupies one 16-byte slot.
    assert_eq!(16, element_alignment(16));
    assert_eq!(Some(16), element_stride(16, 12));
    // A 20-byte element with 16-byte alignment occupies two slots.
    assert_eq!(Some(32), element_stride(16, 20));
    // An element stricter than 16 bytes keeps its own alignment.
    assert_eq!(32, element_alignment(32));
    assert_eq!(Some(32), element_stride(32, 4));
}

#[test]
fn consecutive_vec3_fields_are_not_packed() {
    // Two vec3 fields: the second starts at 16, not at the first's end (12).
    let fields = vec![field("a", 16, 12, 0), field("b", 16, 12, 16)];
    let s = validate_struct(&fields).unwrap();
    assert_eq!(vec![0, 16], s.offsets);
    assert_eq!(16, s.alignment);
    assert_eq!(32, s.size);

    // Packing the second vec3 straight after the first is rejected.
    let packed = vec![field("a", 16, 12, 0), field("b", 16, 12, 12)];
    assert_eq!(
        Err::<(), LayoutError>(LayoutError::OffsetMismatch { field: 1, name: "b".to_string(), expected: 16, actual: 12 }),
        validate_struct(&packed).map(|_| ()),
    );
}

#[test]
fn vec2_then_vec3_rounds_up_to_16() {
    // A vec2 field (8 bytes at offset 0) followed by a vec3: the vec3 goes to
    // offset 16, rounded up from 8.
    let fields = vec![field("a", 8, 8, 0), field("b", 16, 12, 16)];
    let s = validate_struct(&fields).unwrap();
    assert_eq!(vec![0, 16], s.offsets);
    assert_eq!(16, s.alignment);
    assert_eq!(32, s.size);

    let wrong = vec![field("a", 8, 8, 0), field("b", 16, 12, 8)];
    assert_eq!(
        Err::<(), LayoutError>(LayoutError::OffsetMismatch { field: 1, name: "b".to_string(), expected: 16, actual: 8 }),
        validate_struct(&wrong).map(|_| ()),
    );
}

#[test]
fn scalars_after_a_vec3_fill_its_padding() {
    // (vec3, float, float): the scalars pack into offsets 12 and 16, and the
    // aggregate rounds up to 32 bytes.
    let fields = vec![field("v", 16, 12, 0), field("x", 4, 4, 12), field("y", 4, 4, 16)];
    let s = validate_struct(&fields).unwrap();
    assert_eq!(vec![0, 12, 16], s.offsets);
    assert_eq!(16, s.alignment);
    assert_eq!(32, s.size);
}

#[test]
fn nested_aggregate_as_array_element_end_to_end() {
    // The element aggregate: (vec3, float, float), 32 bytes, 16-byte aligned.
    let elem_fields = vec![field("position", 16, 12, 0), field("intensity", 4, 4, 12), field("falloff", 4, 4, 16)];
    let elem = validate_struct(&elem_fields).unwrap();
    assert_eq!(16, elem.alignment);
    assert_eq!(32, elem.size);

    // Each array slot of the element has stride round_up(size, 16) == 32.
    let stride = element_stride(elem.alignment, elem.size).unwrap();
    assert_eq!(32, stride);

    // The outer aggregate: (mat4x4, vec3, array of 2 elements). The matrix
    // occupies [0, 64); the vec3 occupies [64, 76) and leaves 4 bytes of
    // padding; the array starts at 80, rounded up to 16.
    let lights = elem.as_field("lights".to_string(), 80);
    assert_eq!(16, lights.alignment);
    assert_eq!(32, lights.size);
    let outer = vec![
        field("transform", 16, 64, 0),
        field("ambient", 16, 12, 64),
        field("lights", element_alignment(elem.alignment), 2 * stride, 80),
    ];
    let s = validate_struct(&outer).unwrap();
    assert_eq!(vec![0, 64, 80], s.offsets);
    assert_eq!(16, s.alignment);
    assert_eq!(144, s.size);

    // Placing the array straight after the vec3 (at 76) is rejected.
    let wrong = vec![
        field("transform", 16, 64, 0),
        field("ambient", 16, 12, 64),
        field("lights", 16, 64, 76),
    ];
    assert_eq!(
        Err::<(), LayoutError>(LayoutError::OffsetMismatch { field: 2, name: "lights".to_string(), expected: 80, actual: 76 }),
        validate_struct(&wrong).map(|_| ()),
    );
}

#[test]
fn empty_schema_is_a_zero_sized_16_byte_aligned_aggregate() {
    let s = validate_struct(&vec![]).unwrap();
    assert_eq!(0, s.offsets.len());
    assert_eq!(16, s.alignment);
    assert_eq!(0, s.size);
}

#[test]
fn aggregate_alignment_rounds_up_to_16() {
    // All fields 4-byte aligned: the aggregate is still 16-byte aligned and
    // its size rounds up to a 16-byte multiple.
    let fields = vec![field("a", 4, 4, 0), field("b", 4, 4, 4)];
    let s = validate_struct(&fields).unwrap();
    assert_eq!(vec![0, 4], s.offsets);
    assert_eq!(16, s.alignment);
    assert_eq!(16, s.size);
}

#[test]
fn non_power_of_two_alignment_is_rejected() {
    let fields = vec![field("a", 4, 4, 0), field("b", 12, 4, 4)];
    assert_eq!(
        Err::<(), LayoutError>(LayoutError::AlignmentNotPowerOfTwo { field: 1, name: "b".to_string() }),
        validate_struct(&fields).map(|_| ()),
    );
}

#[test]
fn oversized_layout_is_rejected() {
    // The field itself fits, but rounding the aggregate's size up to its
    // alignment leaves the machine word.
    let fields = vec![field("a", 16, u64::MAX, 0)];
    assert_eq!(
        Err::<(), LayoutError>(LayoutError::SizeOverflow),
        validate_struct(&fields).map(|_| ()),
    );
}
