//! The std140 fixed-length array: every element occupies a slot whose
//! alignment is forced up to at least 16 bytes and whose stride is the
//! element size rounded up to that slot alignment — a multiple of 16 bytes
//! whatever the element type.

use vstd::prelude::*;

use crate::layout::{
    element_alignment, element_stride, lemma_element_stride_multiple_of_16, lemma_small_pow2,
    spec_element_alignment, spec_element_stride,
};
use crate::{ReprStd140, Std140ArrayElement};

verus! {

/// The base alignment of an std140 array slot that holds a `T`: the
/// element's own alignment, forced up to at least 16 bytes.
pub open spec fn spec_element_alignment_of<T: Std140ArrayElement>() -> nat {
    spec_element_alignment(T::spec_alignment() as int) as nat
}

/// The stride between consecutive std140 array slots that hold `T`s: the
/// element's size rounded up to the slot alignment.
pub open spec fn spec_element_stride_of<T: Std140ArrayElement>() -> nat {
    spec_element_stride(T::spec_alignment() as int, T::spec_size() as int) as nat
}

/// Whatever the element type, its array slot is aligned at least as strictly
/// as the element itself and at least to 16 bytes, the slot holds the whole
/// element, and the stride between slots is a multiple of 16 bytes — wrapping
/// a 4-byte scalar yields a 16-byte stride, not a 4-byte one.
pub proof fn lemma_element_slot_properties<T: Std140ArrayElement>()
    ensures
        spec_element_alignment_of::<T>() >= T::spec_alignment(),
        spec_element_alignment_of::<T>() >= 16,
        spec_element_stride_of::<T>() >= T::spec_size(),
        spec_element_stride_of::<T>() % 16 == 0,
{
    T::alignment_wf();
    T::size_wf();
    lemma_element_stride_multiple_of_16(T::spec_alignment() as int, T::spec_size() as int);
}

/// One element of an std140 array, wrapped into its 16-byte-minimum slot.
/// Wrapping changes only the storage slot, never the element's value.
#[derive(Clone, Copy, PartialEq, Eq, Hash, Debug)]
pub struct AlignmentedElement<T>(pub T) where T: Std140ArrayElement;

/// An std140 compatible array of exactly `LEN` elements, stored contiguously
/// with no gap beyond each slot's own padding.
#[derive(Clone, Copy, PartialEq, Debug)]
pub struct array<T, const LEN: usize>(pub [AlignmentedElement<T>; LEN]) where T: Std140ArrayElement;

impl<T: Std140ArrayElement, const LEN: usize> View for array<T, LEN> {
    type V = Seq<T>;

    open spec fn view(&self) -> Seq<T> {
        self.0@.map_values(|e: AlignmentedElement<T>| e.0)
    }
}

impl<T: Std140ArrayElement, const LEN: usize> array<T, LEN> {
    /// Creates an array from its `LEN` wrapped elements, in order.
    pub fn new(inner: [AlignmentedElement<T>; LEN]) -> (r: Self)
        ensures
            r@.len() == LEN,
            forall|j: int| 0 <= j < LEN ==> r@[j] == inner@[j].0,
    {
        array(inner)
    }

    /// The number of elements in the array.
    pub fn len(&self) -> (r: usize)
        ensures
            r == self@.len(),
    {
        LEN
    }

    /// Returns the element in slot `index`. The position must be in bounds.
    pub fn index(&self, index: usize) -> (r: &AlignmentedElement<T>)
        requires
            index < LEN,
        ensures
            r.0 == self@[index as int],
    {
        vstd::array::array_index_get(&self.0, index)
    }

    /// Replaces the element in slot `index`, leaving every other slot
    /// unchanged. The position must be in bounds.
    pub fn set_element(&mut self, index: usize, value: AlignmentedElement<T>)
        requires
            index < LEN,
        ensures
            final(self)@ == old(self)@.update(index as int, value.0),
    {
        self.0[index] = value;
        proof {
            assert(self@ =~= old(self)@.update(index as int, value.0));
        }
    }

    /// The number of bytes the array occupies: one full slot per element.
    pub open spec fn spec_byte_size() -> nat {
        (LEN as nat) * spec_element_stride_of::<T>()
    }

    /// Returns the byte size of the array, reporting a size that would not
    /// fit in a machine word instead of wrapping.
    pub fn byte_size() -> (r: Option<u64>)
        ensures
            match r {
                Some(v) => v == Self::spec_byte_size(),
                None => Self::spec_byte_size() > u64::MAX,
            },
    {
        if LEN == 0 {
            return Some(0);
        }
        let stride = match element_stride(T::alignment(), T::size()) {
            Some(s) => s,
            None => {
                proof {
                    lemma_stride_le_byte_size::<T>(LEN as nat);
                }
                return None;
            },
        };
        (LEN as u64).checked_mul(stride)
    }
}

impl<T: Std140ArrayElement, const LEN: usize> From<[AlignmentedElement<T>; LEN]> for array<T, LEN> {
    /// Wraps the `LEN` elements as an std140 array, in order.
    fn from(inner: [AlignmentedElement<T>; LEN]) -> (r: Self) {
        array(inner)
    }
}

impl<T: Std140ArrayElement, const LEN: usize> vstd::std_specs::convert::FromSpecImpl<[AlignmentedElement<T>; LEN]> for array<T, LEN> {
    open spec fn obeys_from_spec() -> bool {
        true
    }

    open spec fn from_spec(inner: [AlignmentedElement<T>; LEN]) -> Self {
        array(inner)
    }
}

/// A positive element count makes the array at least one stride long.
proof fn lemma_stride_le_byte_size<T: Std140ArrayElement>(len: nat)
    requires
        len >= 1,
    ensures
        spec_element_stride_of::<T>() <= len * spec_element_stride_of::<T>(),
{
    let s = spec_element_stride_of::<T>() as int;
    assert(1 * s <= len * s) by (nonlinear_arith)
        requires
            len >= 1,
            s >= 0,
    ;
}

impl<T: Std140ArrayElement, const LEN: usize> ReprStd140 for array<T, LEN> {
    open spec fn spec_alignment() -> nat {
        spec_element_alignment_of::<T>()
    }

    proof fn alignment_wf() {
        T::alignment_wf();
        lemma_small_pow2(16);
    }

    fn alignment() -> u64 {
        element_alignment(T::alignment())
    }
}

/// An std140 array is aligned exactly as its element slots are, which is at
/// least as strictly as the element type itself.
pub proof fn lemma_array_alignment_covers_elements<T: Std140ArrayElement, const LEN: usize>()
    ensures
        array::<T, LEN>::spec_alignment() == spec_element_alignment_of::<T>(),
        array::<T, LEN>::spec_alignment() >= T::spec_alignment(),
        array::<T, LEN>::spec_alignment() >= 16,
{
    lemma_element_slot_properties::<T>();
}

} // verus!
