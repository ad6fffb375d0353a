use std140::vector::{
    bvec2, bvec3, bvec4, ivec2, ivec3, ivec4, uvec2, uvec3, uvec4, vec2, vec3, vec4,
};
use std140::{boolean, float, ReprStd140, Std140ArrayElement};

#[test]
fn vector_layout_table() {
    // 2-component vectors: 8-byte alignment, 8-byte size.
    assert_eq!(8, vec2::alignment());
    assert_eq!(8, vec2::size());
    assert_eq!(8, ivec2::alignment());
    assert_eq!(8, ivec2::size());
    assert_eq!(8, uvec2::alignment());
    assert_eq!(8, uvec2::size());
    assert_eq!(8, bvec2::alignment());
    assert_eq!(8, bvec2::size());
    // 3-component vectors: 16-byte alignment but only 12 bytes of size.
    assert_eq!(16, vec3::alignment());
    assert_eq!(12, vec3::size());
    assert_eq!(16, ivec3::alignment());
    assert_eq!(12, ivec3::size());
    assert_eq!(16, uvec3::alignment());
    assert_eq!(12, uvec3::size());
    assert_eq!(16, bvec3::alignment());
    assert_eq!(12, bvec3::size());
    // 4-component vectors: 16-byte alignment, 16-byte size.
    assert_eq!(16, vec4::alignment());
    assert_eq!(16, vec4::size());
    assert_eq!(16, ivec4::alignment());
    assert_eq!(16, ivec4::size());
    assert_eq!(16, uvec4::alignment());
    assert_eq!(16, uvec4::size());
    assert_eq!(16, bvec4::alignment());
    assert_eq!(16, bvec4::size());
}

#[test]
fn float_vector_zero_components_are_zero() {
    let z2 = vec2::zero();
    assert_eq!(0.0f32, f32::from_bits(z2.0 .0));
    assert_eq!(0.0f32, f32::from_bits(z2.1 .0));
    let z3 = vec3::zero();
    assert_eq!(float(0), z3.0);
    assert_eq!(float(0), z3.1);
    assert_eq!(float(0), z3.2);
    let z4 = vec4::zero();
    assert_eq!(vec4(float(0), float(0), float(0), float(0)), z4);
}

#[test]
fn integer_vector_zeros() {
    assert_eq!(ivec2(0, 0), ivec2::zero());
    assert_eq!(ivec3(0, 0, 0), ivec3::zero());
    assert_eq!(ivec4(0, 0, 0, 0), ivec4::zero());
    assert_eq!(uvec2(0, 0), uvec2::zero());
    assert_eq!(uvec3(0, 0, 0), uvec3::zero());
    assert_eq!(uvec4(0, 0, 0, 0), uvec4::zero());
}

#[test]
fn boolean_vector_zeros_are_all_false() {
    assert_eq!(bvec2(boolean::False, boolean::False), bvec2::zero());
    assert_eq!(bvec3(boolean::False, boolean::False, boolean::False), bvec3::zero());
    assert_eq!(
        bvec4(boolean::False, boolean::False, boolean::False, boolean::False),
        bvec4::zero()
    );
}

#[test]
fn vector_indexing_reads_components_in_declaration_order() {
    let v = vec3(float(1.0f32.to_bits()), float(2.0f32.to_bits()), float(3.0f32.to_bits()));
    assert_eq!(1.0f32, f32::from_bits(v.index(0).0));
    assert_eq!(2.0f32, f32::from_bits(v.index(1).0));
    assert_eq!(3.0f32, f32::from_bits(v.index(2).0));
    let u = uvec4(10, 11, 12, 13);
    assert_eq!(10, u.index(0));
    assert_eq!(11, u.index(1));
    assert_eq!(12, u.index(2));
    assert_eq!(13, u.index(3));
}

#[test]
fn vector_set_index_replaces_one_component() {
    let mut v = ivec2(1, 2);
    v.set_index(0, -7);
    assert_eq!(ivec2(-7, 2), v);
    let mut b = bvec2(boolean::False, boolean::False);
    b.set_index(1, boolean::True);
    assert_eq!(bvec2(boolean::False, boolean::True), b);
    let mut f = vec4::zero();
    f.set_index(3, float(1.0f32.to_bits()));
    assert_eq!(vec4(float(0), float(0), float(0), float(std140::FLOAT_ONE_BITS)), f);
}

#[test]
fn vector_equality_is_componentwise() {
    assert_eq!(vec2(float(5), float(6)), vec2(float(5), float(6)));
    assert_ne!(vec2(float(5), float(6)), vec2(float(6), float(5)));
}
