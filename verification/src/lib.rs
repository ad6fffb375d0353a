//! Value types whose in-memory description matches the GLSL std140 layout
//! convention for uniform interface blocks.
//!
//! Scalars compose into vectors, vectors into matrices and array elements, and
//! every layout-validated type composes into aggregates through the offset
//! engine in [`layout`]. Each type reports its std140 base alignment (and,
//! when it is statically sized, its byte size) through the [`ReprStd140`] and
//! [`Std140ArrayElement`] traits, and those numbers feed the
//! [`layout::validate_struct`] check that gates composition.
#![allow(non_camel_case_types)]

pub mod array;
pub mod layout;
pub mod mat;
pub mod unbounded_array;
pub mod vector;

use vstd::prelude::*;
use vstd::arithmetic::power2::is_pow2;
use vstd::std_specs::convert::FromSpec;

use crate::array::AlignmentedElement;

verus! {

/// The bit pattern of the 32-bit floating point value `1.0`.
pub const FLOAT_ONE_BITS: u32 = 0x3F80_0000;

/// The bit pattern of the 32-bit floating point value `0.0`.
pub const FLOAT_ZERO_BITS: u32 = 0;

/// Types that may be used as fields of an std140 aggregate.
///
/// Every implementor reports the std140 base alignment of its values: the
/// byte boundary a value of the type must start on inside a uniform block.
pub trait ReprStd140: Sized {
    /// The std140 base alignment of this type, in bytes.
    spec fn spec_alignment() -> nat;

    /// The base alignment of every std140 type is a power of two that fits in
    /// a machine word.
    proof fn alignment_wf()
        ensures
            is_pow2(Self::spec_alignment() as int),
            Self::spec_alignment() <= u64::MAX,
    ;

    /// Returns the std140 base alignment of this type, in bytes.
    fn alignment() -> (r: u64)
        ensures
            r == Self::spec_alignment(),
    ;
}

/// Statically sized types that may be used as the element type of an std140
/// array (and therefore also as matrix columns, which are laid out as array
/// elements).
pub trait Std140ArrayElement: ReprStd140 {
    /// The number of bytes a value of this type occupies, before the
    /// array-element rule rounds its slot up to a 16-byte multiple.
    spec fn spec_size() -> nat;

    /// The size of every std140 element type fits in a machine word.
    proof fn size_wf()
        ensures
            Self::spec_size() <= u64::MAX,
    ;

    /// Returns the byte size of this type.
    fn size() -> (r: u64)
        ensures
            r == Self::spec_size(),
    ;
}

/// Marker for aggregate types whose field placement has passed
/// [`layout::validate_struct`]. The declaration front end that turns a host
/// struct into a field schema implements this for the struct once the offset
/// engine has accepted the schema; only such types may nest inside further
/// aggregates or arrays.
pub trait Std140Struct: Std140ArrayElement {}

/// A 32-bit floating point value, stored as its bit pattern.
///
/// The library never computes with floating point values, it only places
/// them; the bit pattern is all the layout rules ever read. Equality is
/// therefore bitwise.
#[derive(Clone, Copy, PartialEq, Eq, Structural, Debug)]
pub struct float(pub u32);

impl ReprStd140 for float {
    open spec fn spec_alignment() -> nat {
        4
    }

    proof fn alignment_wf() {
        layout::lemma_small_pow2(4);
    }

    fn alignment() -> u64 {
        4
    }
}

impl Std140ArrayElement for float {
    open spec fn spec_size() -> nat {
        4
    }

    proof fn size_wf() {
    }

    fn size() -> u64 {
        4
    }
}

/// A 32-bit signed integer value.
#[derive(Clone, Copy, PartialEq, Eq, Structural, Debug)]
pub struct int32(pub i32);

impl ReprStd140 for int32 {
    open spec fn spec_alignment() -> nat {
        4
    }

    proof fn alignment_wf() {
        layout::lemma_small_pow2(4);
    }

    fn alignment() -> u64 {
        4
    }
}

impl Std140ArrayElement for int32 {
    open spec fn spec_size() -> nat {
        4
    }

    proof fn size_wf() {
    }

    fn size() -> u64 {
        4
    }
}

/// A 32-bit unsigned integer value.
#[derive(Clone, Copy, PartialEq, Eq, Structural, Debug)]
pub struct uint(pub u32);

impl ReprStd140 for uint {
    open spec fn spec_alignment() -> nat {
        4
    }

    proof fn alignment_wf() {
        layout::lemma_small_pow2(4);
    }

    fn alignment() -> u64 {
        4
    }
}

impl Std140ArrayElement for uint {
    open spec fn spec_size() -> nat {
        4
    }

    proof fn size_wf() {
    }

    fn size() -> u64 {
        4
    }
}

/// A 32-bit boolean value.
///
/// `False` is stored identically to a [`uint`] of `0`; `True` is stored
/// identically to a [`uint`] of `1`. These are the only two valid bit
/// patterns.
#[derive(Clone, Copy, PartialEq, Eq, Structural, Debug)]
pub enum boolean {
    True,
    False,
}

impl boolean {
    /// The 4-byte discriminant this value is stored as.
    pub open spec fn spec_bits(self) -> u32 {
        match self {
            boolean::True => 1,
            boolean::False => 0,
        }
    }

    /// Returns the 4-byte discriminant this value is stored as.
    pub fn bits(self) -> (r: u32)
        ensures
            r == self.spec_bits(),
    {
        match self {
            boolean::True => 1,
            boolean::False => 0,
        }
    }

    /// The native truth value this value stands for.
    pub open spec fn spec_as_bool(self) -> bool {
        self == boolean::True
    }

    /// Returns the native truth value this value stands for.
    pub fn as_bool(self) -> (r: bool)
        ensures
            r == self.spec_as_bool(),
    {
        match self {
            boolean::True => true,
            boolean::False => false,
        }
    }
}

impl ReprStd140 for boolean {
    open spec fn spec_alignment() -> nat {
        4
    }

    proof fn alignment_wf() {
        layout::lemma_small_pow2(4);
    }

    fn alignment() -> u64 {
        4
    }
}

impl Std140ArrayElement for boolean {
    open spec fn spec_size() -> nat {
        4
    }

    proof fn size_wf() {
    }

    fn size() -> u64 {
        4
    }
}

impl From<bool> for boolean {
    /// `true` becomes `True` and `false` becomes `False`.
    fn from(value: bool) -> (r: Self) {
        if value {
            boolean::True
        } else {
            boolean::False
        }
    }
}

impl vstd::std_specs::convert::FromSpecImpl<bool> for boolean {
    open spec fn obeys_from_spec() -> bool {
        true
    }

    open spec fn from_spec(value: bool) -> Self {
        if value {
            boolean::True
        } else {
            boolean::False
        }
    }
}

impl From<float> for boolean {
    /// `False` exactly when the value is a floating point zero (either sign),
    /// `True` for every other bit pattern.
    fn from(value: float) -> (r: Self) {
        if value.0 & 0x7FFF_FFFF != 0 {
            boolean::True
        } else {
            boolean::False
        }
    }
}

impl vstd::std_specs::convert::FromSpecImpl<float> for boolean {
    open spec fn obeys_from_spec() -> bool {
        true
    }

    open spec fn from_spec(value: float) -> Self {
        if value.0 & 0x7FFF_FFFF != 0 {
            boolean::True
        } else {
            boolean::False
        }
    }
}

impl From<int32> for boolean {
    /// `False` exactly when the value is zero, `True` otherwise.
    fn from(value: int32) -> (r: Self) {
        if value.0 != 0 {
            boolean::True
        } else {
            boolean::False
        }
    }
}

impl vstd::std_specs::convert::FromSpecImpl<int32> for boolean {
    open spec fn obeys_from_spec() -> bool {
        true
    }

    open spec fn from_spec(value: int32) -> Self {
        if value.0 != 0 {
            boolean::True
        } else {
            boolean::False
        }
    }
}

impl From<uint> for boolean {
    /// `False` exactly when the value is zero, `True` otherwise.
    fn from(value: uint) -> (r: Self) {
        if value.0 != 0 {
            boolean::True
        } else {
            boolean::False
        }
    }
}

impl vstd::std_specs::convert::FromSpecImpl<uint> for boolean {
    open spec fn obeys_from_spec() -> bool {
        true
    }

    open spec fn from_spec(value: uint) -> Self {
        if value.0 != 0 {
            boolean::True
        } else {
            boolean::False
        }
    }
}

/// Initializes a [`mat::mat2x2`] from its 2 columns, in order.
pub fn mat2x2(c0: vector::vec2, c1: vector::vec2) -> (m: mat::mat2x2)
    ensures
        m.columns@ == seq![c0, c1],
{
    let inner = [AlignmentedElement(c0), AlignmentedElement(c1)];
    let columns = array::array::<vector::vec2, 2>::new(inner);
    proof {
        assert(columns@ =~= seq![c0, c1]);
    }
    mat::mat2x2 { columns }
}

/// Initializes a [`mat::mat2x3`] from its 2 columns, in order.
pub fn mat2x3(c0: vector::vec3, c1: vector::vec3) -> (m: mat::mat2x3)
    ensures
        m.columns@ == seq![c0, c1],
{
    let inner = [AlignmentedElement(c0), AlignmentedElement(c1)];
    let columns = array::array::<vector::vec3, 2>::new(inner);
    proof {
        assert(columns@ =~= seq![c0, c1]);
    }
    mat::mat2x3 { columns }
}

/// Initializes a [`mat::mat2x4`] from its 2 columns, in order.
pub fn mat2x4(c0: vector::vec4, c1: vector::vec4) -> (m: mat::mat2x4)
    ensures
        m.columns@ == seq![c0, c1],
{
    let inner = [AlignmentedElement(c0), AlignmentedElement(c1)];
    let columns = array::array::<vector::vec4, 2>::new(inner);
    proof {
        assert(columns@ =~= seq![c0, c1]);
    }
    mat::mat2x4 { columns }
}

/// Initializes a [`mat::mat3x2`] from its 3 columns, in order.
pub fn mat3x2(c0: vector::vec2, c1: vector::vec2, c2: vector::vec2) -> (m: mat::mat3x2)
    ensures
        m.columns@ == seq![c0, c1, c2],
{
    let inner = [AlignmentedElement(c0), AlignmentedElement(c1), AlignmentedElement(c2)];
    let columns = array::array::<vector::vec2, 3>::new(inner);
    proof {
        assert(columns@ =~= seq![c0, c1, c2]);
    }
    mat::mat3x2 { columns }
}

/// Initializes a [`mat::mat3x3`] from its 3 columns, in order.
pub fn mat3x3(c0: vector::vec3, c1: vector::vec3, c2: vector::vec3) -> (m: mat::mat3x3)
    ensures
        m.columns@ == seq![c0, c1, c2],
{
    let inner = [AlignmentedElement(c0), AlignmentedElement(c1), AlignmentedElement(c2)];
    let columns = array::array::<vector::vec3, 3>::new(inner);
    proof {
        assert(columns@ =~= seq![c0, c1, c2]);
    }
    mat::mat3x3 { columns }
}

/// Initializes a [`mat::mat3x4`] from its 3 columns, in order.
pub fn mat3x4(c0: vector::vec4, c1: vector::vec4, c2: vector::vec4) -> (m: mat::mat3x4)
    ensures
        m.columns@ == seq![c0, c1, c2],
{
    let inner = [AlignmentedElement(c0), AlignmentedElement(c1), AlignmentedElement(c2)];
    let columns = array::array::<vector::vec4, 3>::new(inner);
    proof {
        assert(columns@ =~= seq![c0, c1, c2]);
    }
    mat::mat3x4 { columns }
}

/// Initializes a [`mat::mat4x2`] from its 4 columns, in order.
pub fn mat4x2(c0: vector::vec2, c1: vector::vec2, c2: vector::vec2, c3: vector::vec2) -> (m: mat::mat4x2)
    ensures
        m.columns@ == seq![c0, c1, c2, c3],
{
    let inner = [AlignmentedElement(c0), AlignmentedElement(c1), AlignmentedElement(c2), AlignmentedElement(c3)];
    let columns = array::array::<vector::vec2, 4>::new(inner);
    proof {
        assert(columns@ =~= seq![c0, c1, c2, c3]);
    }
    mat::mat4x2 { columns }
}

/// Initializes a [`mat::mat4x3`] from its 4 columns, in order.
pub fn mat4x3(c0: vector::vec3, c1: vector::vec3, c2: vector::vec3, c3: vector::vec3) -> (m: mat::mat4x3)
    ensures
        m.columns@ == seq![c0, c1, c2, c3],
{
    let inner = [AlignmentedElement(c0), AlignmentedElement(c1), AlignmentedElement(c2), AlignmentedElement(c3)];
    let columns = array::array::<vector::vec3, 4>::new(inner);
    proof {
        assert(columns@ =~= seq![c0, c1, c2, c3]);
    }
    mat::mat4x3 { columns }
}

/// Initializes a [`mat::mat4x4`] from its 4 columns, in order.
pub fn mat4x4(c0: vector::vec4, c1: vector::vec4, c2: vector::vec4, c3: vector::vec4) -> (m: mat::mat4x4)
    ensures
        m.columns@ == seq![c0, c1, c2, c3],
{
    let inner = [AlignmentedElement(c0), AlignmentedElement(c1), AlignmentedElement(c2), AlignmentedElement(c3)];
    let columns = array::array::<vector::vec4, 4>::new(inner);
    proof {
        assert(columns@ =~= seq![c0, c1, c2, c3]);
    }
    mat::mat4x4 { columns }
}

/// Converting a scalar to [`boolean`] yields `False` exactly when the scalar
/// is its kind's zero representation — for [`float`] a zero of either sign —
/// and `True` otherwise.
pub proof fn lemma_boolean_from_zero(f: float, i: int32, u: uint)
    ensures
        boolean::from_spec(f) == boolean::False <==> (f.0 == FLOAT_ZERO_BITS || f.0
            == 0x8000_0000u32),
        boolean::from_spec(i) == boolean::False <==> i.0 == 0,
        boolean::from_spec(u) == boolean::False <==> u.0 == 0,
{
    let b = f.0;
    assert(b & 0x7FFF_FFFF == 0 <==> (b == 0 || b == 0x8000_0000u32)) by (bit_vector);
}

/// A native truth value round-trips through [`boolean`]: converting it in and
/// reading it back with [`boolean::as_bool`] preserves it, and converting a
/// `boolean` to its truth value and back preserves the `boolean`.
pub proof fn lemma_boolean_roundtrip(x: bool, b: boolean)
    ensures
        boolean::from_spec(x).spec_as_bool() == x,
        boolean::from_spec(b.spec_as_bool()) == b,
{
}

} // verus!
