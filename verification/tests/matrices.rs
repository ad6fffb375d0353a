use std140::mat::{mat2x2, mat2x3, mat2x4, mat3x2, mat3x3, mat3x4, mat4x2, mat4x3, mat4x4};
use std140::vector::{vec2, vec3, vec4};
use std140::{float, ReprStd140, Std140ArrayElement, FLOAT_ONE_BITS};

#[test]
fn matrix_layout_table() {
    // Columns are laid out as array elements, so every column slot has a
    // 16-byte stride and the matrix size is columns times 16.
    assert_eq!(16, mat2x2::alignment());
    assert_eq!(32, mat2x2::size());
    assert_eq!(16, mat2x3::alignment());
    assert_eq!(32, mat2x3::size());
    assert_eq!(16, mat2x4::alignment());
    assert_eq!(32, mat2x4::size());
    assert_eq!(16, mat3x2::alignment());
    assert_eq!(48, mat3x2::size());
    assert_eq!(16, mat3x3::alignment());
    assert_eq!(48, mat3x3::size());
    assert_eq!(16, mat3x4::alignment());
    assert_eq!(48, mat3x4::size());
    assert_eq!(16, mat4x2::alignment());
    assert_eq!(64, mat4x2::size());
    assert_eq!(16, mat4x3::alignment());
    assert_eq!(64, mat4x3::size());
    assert_eq!(16, mat4x4::alignment());
    assert_eq!(64, mat4x4::size());
}

#[test]
fn mat4x4_zero_equals_matrix_of_zero_columns() {
    let built = std140::mat4x4(vec4::zero(), vec4::zero(), vec4::zero(), vec4::zero());
    assert_eq!(mat4x4::zero(), built);
}

#[test]
fn matrix_zeros_have_zero_columns() {
    let z = mat2x3::zero();
    assert_eq!(vec3::zero(), z.columns.index(0).0);
    assert_eq!(vec3::zero(), z.columns.index(1).0);
    let z = mat4x2::zero();
    for i in 0..4 {
        assert_eq!(vec2::zero(), z.columns.index(i).0);
    }
}

#[test]
fn mat4x4_identity_components() {
    let m = mat4x4::identity();
    for i in 0..4 {
        let column = m.columns.index(i).0;
        for j in 0..4 {
            let expected = if i == j { 1.0f32 } else { 0.0f32 };
            assert_eq!(expected, f32::from_bits(column.index(j).0));
        }
    }
}

#[test]
fn square_identities_carry_one_on_the_diagonal() {
    let one = float(FLOAT_ONE_BITS);
    let m2 = mat2x2::identity();
    assert_eq!(one, m2.columns.index(0).0.index(0));
    assert_eq!(float(0), m2.columns.index(0).0.index(1));
    assert_eq!(float(0), m2.columns.index(1).0.index(0));
    assert_eq!(one, m2.columns.index(1).0.index(1));
    let m3 = mat3x3::identity();
    for i in 0..3 {
        for j in 0..3 {
            let expected = if i == j { one } else { float(0) };
            assert_eq!(expected, m3.columns.index(i).0.index(j));
        }
    }
    assert_eq!(1.0f32.to_bits(), FLOAT_ONE_BITS);
}

#[test]
fn matrix_constructors_keep_column_order() {
    let c0 = vec2(float(1), float(2));
    let c1 = vec2(float(3), float(4));
    let c2 = vec2(float(5), float(6));
    let m = std140::mat3x2(c0, c1, c2);
    assert_eq!(c0, m.columns.index(0).0);
    assert_eq!(c1, m.columns.index(1).0);
    assert_eq!(c2, m.columns.index(2).0);
    let m = std140::mat2x4(
        vec4(float(1), float(2), float(3), float(4)),
        vec4(float(5), float(6), float(7), float(8)),
    );
    assert_eq!(float(7), m.columns.index(1).0.index(2));
}

#[test]
fn matrix_equality_compares_columns_in_order() {
    let a = std140::mat2x2(vec2(float(1), float(2)), vec2(float(3), float(4)));
    let b = std140::mat2x2(vec2(float(1), float(2)), vec2(float(3), float(4)));
    let c = std140::mat2x2(vec2(float(3), float(4)), vec2(float(1), float(2)));
    assert_eq!(a, b);
    assert_ne!(a, c);
}
