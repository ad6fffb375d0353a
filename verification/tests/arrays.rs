use std140::array::{array, AlignmentedElement};
use std140::unbounded_array::unbounded_array;
use std140::{uint, ReprStd140};

#[test]
fn lib_it_works() {
    let a = unbounded_array::new(vec![AlignmentedElement(uint(0))]);
    assert_eq!(AlignmentedElement(uint(0)), *a.index(0));
}

#[test]
fn it_works2() {
    let a = unbounded_array::repeat(uint(0), 1);
    assert_eq!(AlignmentedElement(uint(0)), *a.index(0));
}

#[test]
fn unbounded_array_it_works() {
    assert_eq!(16, <unbounded_array<uint> as ReprStd140>::alignment());
}

#[test]
fn fixed_array_new_preserves_order() {
    let a: array<uint, 3> =
        array::new([AlignmentedElement(uint(7)), AlignmentedElement(uint(8)), AlignmentedElement(uint(9))]);
    assert_eq!(3, a.len());
    assert_eq!(uint(7), a.index(0).0);
    assert_eq!(uint(8), a.index(1).0);
    assert_eq!(uint(9), a.index(2).0);
}

#[test]
fn fixed_array_set_element() {
    let mut a: array<uint, 2> = array::new([AlignmentedElement(uint(1)), AlignmentedElement(uint(2))]);
    a.set_element(1, AlignmentedElement(uint(5)));
    assert_eq!(uint(1), a.index(0).0);
    assert_eq!(uint(5), a.index(1).0);
}

#[test]
fn fixed_array_equality_is_elementwise() {
    let a: array<uint, 2> = array::new([AlignmentedElement(uint(1)), AlignmentedElement(uint(2))]);
    let b: array<uint, 2> = array::new([AlignmentedElement(uint(1)), AlignmentedElement(uint(2))]);
    let c: array<uint, 2> = array::new([AlignmentedElement(uint(1)), AlignmentedElement(uint(3))]);
    assert_eq!(a, b);
    assert_ne!(a, c);
}

#[test]
fn fixed_array_byte_size_counts_full_slots() {
    // A 4-byte element still occupies a full 16-byte slot.
    assert_eq!(Some(48), array::<uint, 3>::byte_size());
    assert_eq!(Some(0), array::<uint, 0>::byte_size());
}

#[test]
fn fixed_array_alignment_is_at_least_16() {
    assert_eq!(16, <array<uint, 4> as ReprStd140>::alignment());
}

#[test]
fn unbounded_array_from_empty_sequence() {
    let a: unbounded_array<uint> = unbounded_array::new(vec![]);
    assert_eq!(0, a.len());
    assert_eq!(Some(0), a.byte_size());
}

#[test]
fn unbounded_array_push_and_read_back() {
    let mut a: unbounded_array<uint> = unbounded_array::new(vec![]);
    a.push(uint(3));
    a.push(uint(4));
    assert_eq!(2, a.len());
    assert_eq!(uint(3), a.index(0).0);
    assert_eq!(uint(4), a.index(1).0);
    a.set_element(0, AlignmentedElement(uint(10)));
    assert_eq!(uint(10), a.index(0).0);
    assert_eq!(Some(32), a.byte_size());
}

#[test]
fn unbounded_array_repeat_fills_every_slot() {
    let a = unbounded_array::repeat(uint(6), 4);
    assert_eq!(4, a.len());
    for i in 0..4 {
        assert_eq!(uint(6), a.index(i).0);
    }
}

#[test]
fn fixed_array_from_elements() {
    let a: array<uint, 2> = array::from([AlignmentedElement(uint(1)), AlignmentedElement(uint(2))]);
    let b: array<uint, 2> = array::new([AlignmentedElement(uint(1)), AlignmentedElement(uint(2))]);
    assert_eq!(a, b);
}
