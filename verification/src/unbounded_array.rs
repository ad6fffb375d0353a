//! The std140 dynamically sized array: the same per-element slot rules as the
//! fixed [`array`](crate::array::array), with a length chosen at runtime. By
//! the GLSL unsized-array convention such an array stands only as the last
//! field of a top-level aggregate.

use vstd::prelude::*;

use crate::array::{spec_element_alignment_of, spec_element_stride_of, AlignmentedElement};
use crate::layout::{element_alignment, element_stride, lemma_small_pow2};
use crate::{ReprStd140, Std140ArrayElement};

verus! {

/// An std140 compatible array with a runtime-resizable sequence of elements,
/// each occupying one 16-byte-minimum slot.
#[derive(Clone, Debug)]
pub struct unbounded_array<T>(pub Vec<AlignmentedElement<T>>) where T: Std140ArrayElement;

impl<T: Std140ArrayElement> View for unbounded_array<T> {
    type V = Seq<T>;

    open spec fn view(&self) -> Seq<T> {
        self.0@.map_values(|e: AlignmentedElement<T>| e.0)
    }
}

impl<T: Std140ArrayElement> unbounded_array<T> {
    /// Creates an array from a sequence of wrapped elements, in order.
    pub fn new(inner: Vec<AlignmentedElement<T>>) -> (r: Self)
        ensures
            r@.len() == inner@.len(),
            forall|j: int| 0 <= j < inner@.len() ==> r@[j] == inner@[j].0,
    {
        unbounded_array(inner)
    }

    /// Creates an array of `n` copies of `value`.
    pub fn repeat(value: T, n: usize) -> (r: Self) where T: Copy
        ensures
            r@.len() == n,
            forall|j: int| 0 <= j < n ==> r@[j] == value,
    {
        let mut inner: Vec<AlignmentedElement<T>> = Vec::new();
        let mut i: usize = 0;
        while i < n
            invariant
                i <= n,
                inner@.len() == i,
                forall|j: int| 0 <= j < i ==> inner@[j] == AlignmentedElement(value),
            decreases n - i,
        {
            inner.push(AlignmentedElement(value));
            i = i + 1;
        }
        unbounded_array(inner)
    }

    /// The number of elements in the array.
    pub fn len(&self) -> (r: usize)
        ensures
            r == self@.len(),
    {
        self.0.len()
    }

    /// Returns the element in slot `index`. The position must be in bounds.
    pub fn index(&self, index: usize) -> (r: &AlignmentedElement<T>)
        requires
            index < self@.len(),
        ensures
            r.0 == self@[index as int],
    {
        &self.0[index]
    }

    /// Appends an element after the last slot.
    pub fn push(&mut self, value: T)
        ensures
            final(self)@ == old(self)@.push(value),
    {
        self.0.push(AlignmentedElement(value));
        proof {
            assert(self@ =~= old(self)@.push(value));
        }
    }

    /// Replaces the element in slot `index`, leaving every other slot
    /// unchanged. The position must be in bounds.
    pub fn set_element(&mut self, index: usize, value: AlignmentedElement<T>)
        requires
            index < old(self)@.len(),
        ensures
            final(self)@ == old(self)@.update(index as int, value.0),
    {
        self.0.set(index, value);
        proof {
            assert(self@ =~= old(self)@.update(index as int, value.0));
        }
    }

    /// The number of bytes the array currently occupies: one full slot per
    /// element.
    pub open spec fn spec_byte_size(self) -> nat {
        self@.len() * spec_element_stride_of::<T>()
    }

    /// Returns the byte size the array currently occupies, reporting a size
    /// that would not fit in a machine word instead of wrapping.
    pub fn byte_size(&self) -> (r: Option<u64>)
        ensures
            match r {
                Some(v) => v == self.spec_byte_size(),
                None => self.spec_byte_size() > u64::MAX,
            },
    {
        let n = self.0.len();
        proof {
            assert(self@.len() == self.0@.len());
        }
        if n == 0 {
            return Some(0);
        }
        let stride = match element_stride(T::alignment(), T::size()) {
            Some(s) => s,
            None => {
                proof {
                    let s = spec_element_stride_of::<T>() as int;
                    assert(1 * s <= n * s) by (nonlinear_arith)
                        requires
                            n >= 1,
                            s >= 0,
                    ;
                }
                return None;
            },
        };
        (n as u64).checked_mul(stride)
    }
}

impl<T: Std140ArrayElement> ReprStd140 for unbounded_array<T> {
    open spec fn spec_alignment() -> nat {
        spec_element_alignment_of::<T>()
    }

    proof fn alignment_wf() {
        T::alignment_wf();
        lemma_small_pow2(16);
    }

    fn alignment() -> u64 {
        element_alignment(T::alignment())
    }
}

} // verus!
