//! Column vector types: 2, 3 and 4 components over each scalar kind.
//!
//! A 2-component vector is 8-byte aligned; 3- and 4-component vectors are
//! 16-byte aligned, whatever the scalar kind. A 3-component vector is 12
//! bytes long, so a field that follows one is pushed past the implicit
//! padding by the alignment rounding rule, never packed against it.

use vstd::prelude::*;

use crate::layout::lemma_small_pow2;
use crate::{boolean, float, int32, uint, ReprStd140, Std140ArrayElement, FLOAT_ZERO_BITS};

verus! {

/// A column vector of 2 [`float`] values.
#[derive(Clone, Copy, PartialEq, Eq, Structural, Debug)]
pub struct vec2(pub float, pub float);

impl vec2 {
    /// The all-zeros vector.
    pub open spec fn spec_zero() -> vec2 {
        vec2(float(FLOAT_ZERO_BITS), float(FLOAT_ZERO_BITS))
    }

    /// Creates a new `vec2` with zeros in all positions.
    pub fn zero() -> (r: Self)
        ensures
            r == Self::spec_zero(),
    {
        vec2(float(FLOAT_ZERO_BITS), float(FLOAT_ZERO_BITS))
    }

    /// Component `i` of the vector, counting from 0.
    pub open spec fn spec_index(self, i: int) -> float {
        if i == 0 {
            self.0
        } else {
            self.1
        }
    }

    /// Returns component `index`. The position must be in bounds.
    pub fn index(&self, index: usize) -> (r: float)
        requires
            index < 2,
        ensures
            r == self.spec_index(index as int),
    {
        if index == 0 {
            self.0
        } else {
            self.1
        }
    }

    /// Replaces component `index`, leaving every other component unchanged.
    /// The position must be in bounds.
    pub fn set_index(&mut self, index: usize, value: float)
        requires
            index < 2,
        ensures
            final(self).spec_index(index as int) == value,
            forall|j: int|
                0 <= j < 2 && j != index ==> final(self).spec_index(j) == old(self).spec_index(j),
    {
        if index == 0 {
            self.0 = value;
        } else {
            self.1 = value;
        }
    }
}

impl ReprStd140 for vec2 {
    open spec fn spec_alignment() -> nat {
        8
    }

    proof fn alignment_wf() {
        lemma_small_pow2(8);
    }

    fn alignment() -> u64 {
        8
    }
}

impl Std140ArrayElement for vec2 {
    open spec fn spec_size() -> nat {
        8
    }

    proof fn size_wf() {
    }

    fn size() -> u64 {
        8
    }
}

/// A column vector of 3 [`float`] values: 16-byte aligned but only 12 bytes
/// long.
#[derive(Clone, Copy, PartialEq, Eq, Structural, Debug)]
pub struct vec3(pub float, pub float, pub float);

impl vec3 {
    /// The all-zeros vector.
    pub open spec fn spec_zero() -> vec3 {
        vec3(float(FLOAT_ZERO_BITS), float(FLOAT_ZERO_BITS), float(FLOAT_ZERO_BITS))
    }

    /// Creates a new `vec3` with zeros in all positions.
    pub fn zero() -> (r: Self)
        ensures
            r == Self::spec_zero(),
    {
        vec3(float(FLOAT_ZERO_BITS), float(FLOAT_ZERO_BITS), float(FLOAT_ZERO_BITS))
    }

    /// Component `i` of the vector, counting from 0.
    pub open spec fn spec_index(self, i: int) -> float {
        if i == 0 {
            self.0
        } else if i == 1 {
            self.1
        } else {
            self.2
        }
    }

    /// Returns component `index`. The position must be in bounds.
    pub fn index(&self, index: usize) -> (r: float)
        requires
            index < 3,
        ensures
            r == self.spec_index(index as int),
    {
        if index == 0 {
            self.0
        } else if index == 1 {
            self.1
        } else {
            self.2
        }
    }

    /// Replaces component `index`, leaving every other component unchanged.
    /// The position must be in bounds.
    pub fn set_index(&mut self, index: usize, value: float)
        requires
            index < 3,
        ensures
            final(self).spec_index(index as int) == value,
            forall|j: int|
                0 <= j < 3 && j != index ==> final(self).spec_index(j) == old(self).spec_index(j),
    {
        if index == 0 {
            self.0 = value;
        } else if index == 1 {
            self.1 = value;
        } else {
            self.2 = value;
        }
    }
}

impl ReprStd140 for vec3 {
    open spec fn spec_alignment() -> nat {
        16
    }

    proof fn alignment_wf() {
        lemma_small_pow2(16);
    }

    fn alignment() -> u64 {
        16
    }
}

impl Std140ArrayElement for vec3 {
    open spec fn spec_size() -> nat {
        12
    }

    proof fn size_wf() {
    }

    fn size() -> u64 {
        12
    }
}

/// A column vector of 4 [`float`] values.
#[derive(Clone, Copy, PartialEq, Eq, Structural, Debug)]
pub struct vec4(pub float, pub float, pub float, pub float);

impl vec4 {
    /// The all-zeros vector.
    pub open spec fn spec_zero() -> vec4 {
        vec4(
            float(FLOAT_ZERO_BITS),
            float(FLOAT_ZERO_BITS),
            float(FLOAT_ZERO_BITS),
            float(FLOAT_ZERO_BITS),
        )
    }

    /// Creates a new `vec4` with zeros in all positions.
    pub fn zero() -> (r: Self)
        ensures
            r == Self::spec_zero(),
    {
        vec4(
            float(FLOAT_ZERO_BITS),
            float(FLOAT_ZERO_BITS),
            float(FLOAT_ZERO_BITS),
            float(FLOAT_ZERO_BITS),
        )
    }

    /// Component `i` of the vector, counting from 0.
    pub open spec fn spec_index(self, i: int) -> float {
        if i == 0 {
            self.0
        } else if i == 1 {
            self.1
        } else if i == 2 {
            self.2
        } else {
            self.3
        }
    }

    /// Returns component `index`. The position must be in bounds.
    pub fn index(&self, index: usize) -> (r: float)
        requires
            index < 4,
        ensures
            r == self.spec_index(index as int),
    {
        if index == 0 {
            self.0
        } else if index == 1 {
            self.1
        } else if index == 2 {
            self.2
        } else {
            self.3
        }
    }

    /// Replaces component `index`, leaving every other component unchanged.
    /// The position must be in bounds.
    pub fn set_index(&mut self, index: usize, value: float)
        requires
            index < 4,
        ensures
            final(self).spec_index(index as int) == value,
            forall|j: int|
                0 <= j < 4 && j != index ==> final(self).spec_index(j) == old(self).spec_index(j),
    {
        if index == 0 {
            self.0 = value;
        } else if index == 1 {
            self.1 = value;
        } else if index == 2 {
            self.2 = value;
        } else {
            self.3 = value;
        }
    }
}

impl ReprStd140 for vec4 {
    open spec fn spec_alignment() -> nat {
        16
    }

    proof fn alignment_wf() {
        lemma_small_pow2(16);
    }

    fn alignment() -> u64 {
        16
    }
}

impl Std140ArrayElement for vec4 {
    open spec fn spec_size() -> nat {
        16
    }

    proof fn size_wf() {
    }

    fn size() -> u64 {
        16
    }
}

/// A column vector of 2 [`int32`] values.
#[derive(Clone, Copy, PartialEq, Eq, Structural, Debug)]
pub struct ivec2(pub i32, pub i32);

impl ivec2 {
    /// The all-zeros vector.
    pub open spec fn spec_zero() -> ivec2 {
        ivec2(0, 0)
    }

    /// Creates a new `ivec2` with zeros in all positions.
    pub fn zero() -> (r: Self)
        ensures
            r == Self::spec_zero(),
    {
        ivec2(0, 0)
    }

    /// Component `i` of the vector, counting from 0.
    pub open spec fn spec_index(self, i: int) -> i32 {        if i == 0 {
            self.0
        } else {
            self.1
        }    }

    /// Returns component `index`. The position must be in bounds.
    pub fn index(&self, index: usize) -> (r: i32)
        requires
            index < 2,
        ensures
            r == self.spec_index(index as int),
    {        if index == 0 {
            self.0
        } else {
            self.1
        }    }

    /// Replaces component `index`, leaving every other component unchanged.
    /// The position must be in bounds.
    pub fn set_index(&mut self, index: usize, value: i32)
        requires
            index < 2,
        ensures
            final(self).spec_index(index as int) == value,
            forall|j: int|
                0 <= j < 2 && j != index ==> final(self).spec_index(j) == old(self).spec_index(j),
    {        if index == 0 {
            self.0 = value;
        } else {
            self.1 = value;
        }    }
}

impl ReprStd140 for ivec2 {
    open spec fn spec_alignment() -> nat {
        8
    }

    proof fn alignment_wf() {
        lemma_small_pow2(8);
    }

    fn alignment() -> u64 {
        8
    }
}

impl Std140ArrayElement for ivec2 {
    open spec fn spec_size() -> nat {
        8
    }

    proof fn size_wf() {
    }

    fn size() -> u64 {
        8
    }
}

/// A column vector of 3 [`int32`] values: 16-byte aligned but only 12
/// bytes long.
#[derive(Clone, Copy, PartialEq, Eq, Structural, Debug)]
pub struct ivec3(pub i32, pub i32, pub i32);

impl ivec3 {
    /// The all-zeros vector.
    pub open spec fn spec_zero() -> ivec3 {
        ivec3(0, 0, 0)
    }

    /// Creates a new `ivec3` with zeros in all positions.
    pub fn zero() -> (r: Self)
        ensures
            r == Self::spec_zero(),
    {
        ivec3(0, 0, 0)
    }

    /// Component `i` of the vector, counting from 0.
    pub open spec fn spec_index(self, i: int) -> i32 {        if i == 0 {
            self.0
        } else if i == 1 {
            self.1
        } else {
            self.2
        }    }

    /// Returns component `index`. The position must be in bounds.
    pub fn index(&self, index: usize) -> (r: i32)
        requires
            index < 3,
        ensures
            r == self.spec_index(index as int),
    {        if index == 0 {
            self.0
        } else if index == 1 {
            self.1
        } else {
            self.2
        }    }

    /// Replaces component `index`, leaving every other component unchanged.
    /// The position must be in bounds.
    pub fn set_index(&mut self, index: usize, value: i32)
        requires
            index < 3,
        ensures
            final(self).spec_index(index as int) == value,
            forall|j: int|
                0 <= j < 3 && j != index ==> final(self).spec_index(j) == old(self).spec_index(j),
    {        if index == 0 {
            self.0 = value;
        } else if index == 1 {
            self.1 = value;
        } else {
            self.2 = value;
        }    }
}

impl ReprStd140 for ivec3 {
    open spec fn spec_alignment() -> nat {
        16
    }

    proof fn alignment_wf() {
        lemma_small_pow2(16);
    }

    fn alignment() -> u64 {
        16
    }
}

impl Std140ArrayElement for ivec3 {
    open spec fn spec_size() -> nat {
        12
    }

    proof fn size_wf() {
    }

    fn size() -> u64 {
        12
    }
}

/// A column vector of 4 [`int32`] values.
#[derive(Clone, Copy, PartialEq, Eq, Structural, Debug)]
pub struct ivec4(pub i32, pub i32, pub i32, pub i32);

impl ivec4 {
    /// The all-zeros vector.
    pub open spec fn spec_zero() -> ivec4 {
        ivec4(0, 0, 0, 0)
    }

    /// Creates a new `ivec4` with zeros in all positions.
    pub fn zero() -> (r: Self)
        ensures
            r == Self::spec_zero(),
    {
        ivec4(0, 0, 0, 0)
    }

    /// Component `i` of the vector, counting from 0.
    pub open spec fn spec_index(self, i: int) -> i32 {        if i == 0 {
            self.0
        } else if i == 1 {
            self.1
        } else if i == 2 {
            self.2
        } else {
            self.3
        }    }

    /// Returns component `index`. The position must be in bounds.
    pub fn index(&self, index: usize) -> (r: i32)
        requires
            index < 4,
        ensures
            r == self.spec_index(index as int),
    {        if index == 0 {
            self.0
        } else if index == 1 {
            self.1
        } else if index == 2 {
            self.2
        } else {
            self.3
        }    }

    /// Replaces component `index`, leaving every other component unchanged.
    /// The position must be in bounds.
    pub fn set_index(&mut self, index: usize, value: i32)
        requires
            index < 4,
        ensures
            final(self).spec_index(index as int) == value,
            forall|j: int|
                0 <= j < 4 && j != index ==> final(self).spec_index(j) == old(self).spec_index(j),
    {        if index == 0 {
            self.0 = value;
        } else if index == 1 {
            self.1 = value;
        } else if index == 2 {
            self.2 = value;
        } else {
            self.3 = value;
        }    }
}

impl ReprStd140 for ivec4 {
    open spec fn spec_alignment() -> nat {
        16
    }

    proof fn alignment_wf() {
        lemma_small_pow2(16);
    }

    fn alignment() -> u64 {
        16
    }
}

impl Std140ArrayElement for ivec4 {
    open spec fn spec_size() -> nat {
        16
    }

    proof fn size_wf() {
    }

    fn size() -> u64 {
        16
    }
}

/// A column vector of 2 [`uint`] values.
#[derive(Clone, Copy, PartialEq, Eq, Structural, Debug)]
pub struct uvec2(pub u32, pub u32);

impl uvec2 {
    /// The all-zeros vector.
    pub open spec fn spec_zero() -> uvec2 {
        uvec2(0, 0)
    }

    /// Creates a new `uvec2` with zeros in all positions.
    pub fn zero() -> (r: Self)
        ensures
            r == Self::spec_zero(),
    {
        uvec2(0, 0)
    }

    /// Component `i` of the vector, counting from 0.
    pub open spec fn spec_index(self, i: int) -> u32 {        if i == 0 {
            self.0
        } else {
            self.1
        }    }

    /// Returns component `index`. The position must be in bounds.
    pub fn index(&self, index: usize) -> (r: u32)
        requires
            index < 2,
        ensures
            r == self.spec_index(index as int),
    {        if index == 0 {
            self.0
        } else {
            self.1
        }    }

    /// Replaces component `index`, leaving every other component unchanged.
    /// The position must be in bounds.
    pub fn set_index(&mut self, index: usize, value: u32)
        requires
            index < 2,
        ensures
            final(self).spec_index(index as int) == value,
            forall|j: int|
                0 <= j < 2 && j != index ==> final(self).spec_index(j) == old(self).spec_index(j),
    {        if index == 0 {
            self.0 = value;
        } else {
            self.1 = value;
        }    }
}

impl ReprStd140 for uvec2 {
    open spec fn spec_alignment() -> nat {
        8
    }

    proof fn alignment_wf() {
        lemma_small_pow2(8);
    }

    fn alignment() -> u64 {
        8
    }
}

impl Std140ArrayElement for uvec2 {
    open spec fn spec_size() -> nat {
        8
    }

    proof fn size_wf() {
    }

    fn size() -> u64 {
        8
    }
}

/// A column vector of 3 [`uint`] values: 16-byte aligned but only 12
/// bytes long.
#[derive(Clone, Copy, PartialEq, Eq, Structural, Debug)]
pub struct uvec3(pub u32, pub u32, pub u32);

impl uvec3 {
    /// The all-zeros vector.
    pub open spec fn spec_zero() -> uvec3 {
        uvec3(0, 0, 0)
    }

    /// Creates a new `uvec3` with zeros in all positions.
    pub fn zero() -> (r: Self)
        ensures
            r == Self::spec_zero(),
    {
        uvec3(0, 0, 0)
    }

    /// Component `i` of the vector, counting from 0.
    pub open spec fn spec_index(self, i: int) -> u32 {        if i == 0 {
            self.0
        } else if i == 1 {
            self.1
        } else {
            self.2
        }    }

    /// Returns component `index`. The position must be in bounds.
    pub fn index(&self, index: usize) -> (r: u32)
        requires
            index < 3,
        ensures
            r == self.spec_index(index as int),
    {        if index == 0 {
            self.0
        } else if index == 1 {
            self.1
        } else {
            self.2
        }    }

    /// Replaces component `index`, leaving every other component unchanged.
    /// The position must be in bounds.
    pub fn set_index(&mut self, index: usize, value: u32)
        requires
            index < 3,
        ensures
            final(self).spec_index(index as int) == value,
            forall|j: int|
                0 <= j < 3 && j != index ==> final(self).spec_index(j) == old(self).spec_index(j),
    {        if index == 0 {
            self.0 = value;
        } else if index == 1 {
            self.1 = value;
        } else {
            self.2 = value;
        }    }
}

impl ReprStd140 for uvec3 {
    open spec fn spec_alignment() -> nat {
        16
    }

    proof fn alignment_wf() {
        lemma_small_pow2(16);
    }

    fn alignment() -> u64 {
        16
    }
}

impl Std140ArrayElement for uvec3 {
    open spec fn spec_size() -> nat {
        12
    }

    proof fn size_wf() {
    }

    fn size() -> u64 {
        12
    }
}

/// A column vector of 4 [`uint`] values.
#[derive(Clone, Copy, PartialEq, Eq, Structural, Debug)]
pub struct uvec4(pub u32, pub u32, pub u32, pub u32);

impl uvec4 {
    /// The all-zeros vector.
    pub open spec fn spec_zero() -> uvec4 {
        uvec4(0, 0, 0, 0)
    }

    /// Creates a new `uvec4` with zeros in all positions.
    pub fn zero() -> (r: Self)
        ensures
            r == Self::spec_zero(),
    {
        uvec4(0, 0, 0, 0)
    }

    /// Component `i` of the vector, counting from 0.
    pub open spec fn spec_index(self, i: int) -> u32 {        if i == 0 {
            self.0
        } else if i == 1 {
            self.1
        } else if i == 2 {
            self.2
        } else {
            self.3
        }    }

    /// Returns component `index`. The position must be in bounds.
    pub fn index(&self, index: usize) -> (r: u32)
        requires
            index < 4,
        ensures
            r == self.spec_index(index as int),
    {        if index == 0 {
            self.0
        } else if index == 1 {
            self.1
        } else if index == 2 {
            self.2
        } else {
            self.3
        }    }

    /// Replaces component `index`, leaving every other component unchanged.
    /// The position must be in bounds.
    pub fn set_index(&mut self, index: usize, value: u32)
        requires
            index < 4,
        ensures
            final(self).spec_index(index as int) == value,
            forall|j: int|
                0 <= j < 4 && j != index ==> final(self).spec_index(j) == old(self).spec_index(j),
    {        if index == 0 {
            self.0 = value;
        } else if index == 1 {
            self.1 = value;
        } else if index == 2 {
            self.2 = value;
        } else {
            self.3 = value;
        }    }
}

impl ReprStd140 for uvec4 {
    open spec fn spec_alignment() -> nat {
        16
    }

    proof fn alignment_wf() {
        lemma_small_pow2(16);
    }

    fn alignment() -> u64 {
        16
    }
}

impl Std140ArrayElement for uvec4 {
    open spec fn spec_size() -> nat {
        16
    }

    proof fn size_wf() {
    }

    fn size() -> u64 {
        16
    }
}

/// A column vector of 2 [`boolean`] values.
#[derive(Clone, Copy, PartialEq, Eq, Structural, Debug)]
pub struct bvec2(pub boolean, pub boolean);

impl bvec2 {
    /// The all-zeros vector.
    pub open spec fn spec_zero() -> bvec2 {
        bvec2(boolean::False, boolean::False)
    }

    /// Creates a new `bvec2` with zeros in all positions.
    pub fn zero() -> (r: Self)
        ensures
            r == Self::spec_zero(),
    {
        bvec2(boolean::False, boolean::False)
    }

    /// Component `i` of the vector, counting from 0.
    pub open spec fn spec_index(self, i: int) -> boolean {        if i == 0 {
            self.0
        } else {
            self.1
        }    }

    /// Returns component `index`. The position must be in bounds.
    pub fn index(&self, index: usize) -> (r: boolean)
        requires
            index < 2,
        ensures
            r == self.spec_index(index as int),
    {        if index == 0 {
            self.0
        } else {
            self.1
        }    }

    /// Replaces component `index`, leaving every other component unchanged.
    /// The position must be in bounds.
    pub fn set_index(&mut self, index: usize, value: boolean)
        requires
            index < 2,
        ensures
            final(self).spec_index(index as int) == value,
            forall|j: int|
                0 <= j < 2 && j != index ==> final(self).spec_index(j) == old(self).spec_index(j),
    {        if index == 0 {
            self.0 = value;
        } else {
            self.1 = value;
        }    }
}

impl ReprStd140 for bvec2 {
    open spec fn spec_alignment() -> nat {
        8
    }

    proof fn alignment_wf() {
        lemma_small_pow2(8);
    }

    fn alignment() -> u64 {
        8
    }
}

impl Std140ArrayElement for bvec2 {
    open spec fn spec_size() -> nat {
        8
    }

    proof fn size_wf() {
    }

    fn size() -> u64 {
        8
    }
}

/// A column vector of 3 [`boolean`] values: 16-byte aligned but only 12
/// bytes long.
#[derive(Clone, Copy, PartialEq, Eq, Structural, Debug)]
pub struct bvec3(pub boolean, pub boolean, pub boolean);

impl bvec3 {
    /// The all-zeros vector.
    pub open spec fn spec_zero() -> bvec3 {
        bvec3(boolean::False, boolean::False, boolean::False)
    }

    /// Creates a new `bvec3` with zeros in all positions.
    pub fn zero() -> (r: Self)
        ensures
            r == Self::spec_zero(),
    {
        bvec3(boolean::False, boolean::False, boolean::False)
    }

    /// Component `i` of the vector, counting from 0.
    pub open spec fn spec_index(self, i: int) -> boolean {        if i == 0 {
            self.0
        } else if i == 1 {
            self.1
        } else {
            self.2
        }    }

    /// Returns component `index`. The position must be in bounds.
    pub fn index(&self, index: usize) -> (r: boolean)
        requires
            index < 3,
        ensures
            r == self.spec_index(index as int),
    {        if index == 0 {
            self.0
        } else if index == 1 {
            self.1
        } else {
            self.2
        }    }

    /// Replaces component `index`, leaving every other component unchanged.
    /// The position must be in bounds.
    pub fn set_index(&mut self, index: usize, value: boolean)
        requires
            index < 3,
        ensures
            final(self).spec_index(index as int) == value,
            forall|j: int|
                0 <= j < 3 && j != index ==> final(self).spec_index(j) == old(self).spec_index(j),
    {        if index == 0 {
            self.0 = value;
        } else if index == 1 {
            self.1 = value;
        } else {
            self.2 = value;
        }    }
}

impl ReprStd140 for bvec3 {
    open spec fn spec_alignment() -> nat {
        16
    }

    proof fn alignment_wf() {
        lemma_small_pow2(16);
    }

    fn alignment() -> u64 {
        16
    }
}

impl Std140ArrayElement for bvec3 {
    open spec fn spec_size() -> nat {
        12
    }

    proof fn size_wf() {
    }

    fn size() -> u64 {
        12
    }
}

/// A column vector of 4 [`boolean`] values.
#[derive(Clone, Copy, PartialEq, Eq, Structural, Debug)]
pub struct bvec4(pub boolean, pub boolean, pub boolean, pub boolean);

impl bvec4 {
    /// The all-zeros vector.
    pub open spec fn spec_zero() -> bvec4 {
        bvec4(boolean::False, boolean::False, boolean::False, boolean::False)
    }

    /// Creates a new `bvec4` with zeros in all positions.
    pub fn zero() -> (r: Self)
        ensures
            r == Self::spec_zero(),
    {
        bvec4(boolean::False, boolean::False, boolean::False, boolean::False)
    }

    /// Component `i` of the vector, counting from 0.
    pub open spec fn spec_index(self, i: int) -> boolean {        if i == 0 {
            self.0
        } else if i == 1 {
            self.1
        } else if i == 2 {
            self.2
        } else {
            self.3
        }    }

    /// Returns component `index`. The position must be in bounds.
    pub fn index(&self, index: usize) -> (r: boolean)
        requires
            index < 4,
        ensures
            r == self.spec_index(index as int),
    {        if index == 0 {
            self.0
        } else if index == 1 {
            self.1
        } else if index == 2 {
            self.2
        } else {
            self.3
        }    }

    /// Replaces component `index`, leaving every other component unchanged.
    /// The position must be in bounds.
    pub fn set_index(&mut self, index: usize, value: boolean)
        requires
            index < 4,
        ensures
            final(self).spec_index(index as int) == value,
            forall|j: int|
                0 <= j < 4 && j != index ==> final(self).spec_index(j) == old(self).spec_index(j),
    {        if index == 0 {
            self.0 = value;
        } else if index == 1 {
            self.1 = value;
        } else if index == 2 {
            self.2 = value;
        } else {
            self.3 = value;
        }    }
}

impl ReprStd140 for bvec4 {
    open spec fn spec_alignment() -> nat {
        16
    }

    proof fn alignment_wf() {
        lemma_small_pow2(16);
    }

    fn alignment() -> u64 {
        16
    }
}

impl Std140ArrayElement for bvec4 {
    open spec fn spec_size() -> nat {
        16
    }

    proof fn size_wf() {
    }

    fn size() -> u64 {
        16
    }
}

/// Two consecutive `vec3` fields of an aggregate are not packed back to back:
/// although a `vec3` is only 12 bytes long, its 16-byte alignment places the
/// second field at offset 16, not 12.
pub proof fn lemma_consecutive_vec3_fields(fields: Seq<crate::layout::FieldSchema>)
    requires
        fields.len() >= 2,
        fields[0].alignment == vec3::spec_alignment(),
        fields[0].size == vec3::spec_size(),
        fields[1].alignment == vec3::spec_alignment(),
    ensures
        crate::layout::spec_field_offset(fields, 0) == 0,
        crate::layout::spec_field_offset(fields, 1) == 16,
{
    crate::layout::lemma_vec3_pair_not_packed(fields);
}

/// A `vec2` field followed by a `vec3` field places the `vec3` at offset 16,
/// rounded up from the `vec2`'s end at 8.
pub proof fn lemma_vec2_field_then_vec3_field(fields: Seq<crate::layout::FieldSchema>)
    requires
        fields.len() >= 2,
        fields[0].alignment == vec2::spec_alignment(),
        fields[0].size == vec2::spec_size(),
        fields[1].alignment == vec3::spec_alignment(),
    ensures
        crate::layout::spec_field_offset(fields, 0) == 0,
        crate::layout::spec_field_offset(fields, 1) == 16,
{
    crate::layout::lemma_vec2_then_vec3_offset(fields);
}

/// Every vector type is aligned at least as strictly as the 4-byte scalar
/// components it directly contains, whatever the scalar kind.
pub proof fn lemma_vector_alignment_covers_components()
    ensures
        vec2::spec_alignment() >= float::spec_alignment(),
        vec3::spec_alignment() >= float::spec_alignment(),
        vec4::spec_alignment() >= float::spec_alignment(),
        ivec2::spec_alignment() >= int32::spec_alignment(),
        ivec3::spec_alignment() >= int32::spec_alignment(),
        ivec4::spec_alignment() >= int32::spec_alignment(),
        uvec2::spec_alignment() >= uint::spec_alignment(),
        uvec3::spec_alignment() >= uint::spec_alignment(),
        uvec4::spec_alignment() >= uint::spec_alignment(),
        bvec2::spec_alignment() >= boolean::spec_alignment(),
        bvec3::spec_alignment() >= boolean::spec_alignment(),
        bvec4::spec_alignment() >= boolean::spec_alignment(),
{
}

} // verus!
