//! Matrix types: 2 to 4 column vectors of a single vector type. A matrix is
//! stored column-major, and for layout purposes its columns behave as std140
//! array elements, so every column slot is 16-byte aligned and the matrix
//! size is the column count times the column stride.

use vstd::prelude::*;

use crate::array::{array, spec_element_alignment_of, spec_element_stride_of, AlignmentedElement};
use crate::layout::lemma_small_pow2;
use crate::vector::{vec2, vec3, vec4};
use crate::{float, ReprStd140, Std140ArrayElement, FLOAT_ONE_BITS, FLOAT_ZERO_BITS};

verus! {

/// A matrix with 2 columns and 2 rows, represented by 2 `vec2` column
/// vectors.
#[derive(Clone, Copy, PartialEq, Debug)]
pub struct mat2x2 {
    pub columns: array<vec2, 2>,
}

impl mat2x2 {
    /// The column sequence of the all-zeros matrix.
    pub open spec fn spec_zero_columns() -> Seq<vec2> {
        seq![vec2::spec_zero(), vec2::spec_zero()]
    }

    /// Creates a new `mat2x2` with zeros in all positions.
    pub fn zero() -> (m: Self)
        ensures
            m.columns@ == Self::spec_zero_columns(),
    {
        crate::mat2x2(vec2::zero(), vec2::zero())
    }

    /// The column sequence of the identity matrix: column `i` carries the
    /// bit pattern of `1.0` in component `i` and of `0.0` everywhere else.
    pub open spec fn spec_identity_columns() -> Seq<vec2> {
        seq![
            vec2(float(FLOAT_ONE_BITS), float(FLOAT_ZERO_BITS)),
            vec2(float(FLOAT_ZERO_BITS), float(FLOAT_ONE_BITS)),
        ]
    }

    /// Creates the 2x2 identity matrix.
    pub fn identity() -> (m: Self)
        ensures
            m.columns@ == Self::spec_identity_columns(),
    {
        crate::mat2x2(
            vec2(float(FLOAT_ONE_BITS), float(FLOAT_ZERO_BITS)),
            vec2(float(FLOAT_ZERO_BITS), float(FLOAT_ONE_BITS)),
        )
    }
}

impl ReprStd140 for mat2x2 {
    open spec fn spec_alignment() -> nat {
        spec_element_alignment_of::<vec2>()
    }

    proof fn alignment_wf() {
        lemma_small_pow2(16);
    }

    fn alignment() -> u64 {
        16
    }
}

impl Std140ArrayElement for mat2x2 {
    open spec fn spec_size() -> nat {
        2 * spec_element_stride_of::<vec2>()
    }

    proof fn size_wf() {
    }

    fn size() -> u64 {
        32
    }
}

/// A matrix with 2 columns and 3 rows, represented by 2 `vec3` column
/// vectors.
#[derive(Clone, Copy, PartialEq, Debug)]
pub struct mat2x3 {
    pub columns: array<vec3, 2>,
}

impl mat2x3 {
    /// The column sequence of the all-zeros matrix.
    pub open spec fn spec_zero_columns() -> Seq<vec3> {
        seq![vec3::spec_zero(), vec3::spec_zero()]
    }

    /// Creates a new `mat2x3` with zeros in all positions.
    pub fn zero() -> (m: Self)
        ensures
            m.columns@ == Self::spec_zero_columns(),
    {
        crate::mat2x3(vec3::zero(), vec3::zero())
    }
}

impl ReprStd140 for mat2x3 {
    open spec fn spec_alignment() -> nat {
        spec_element_alignment_of::<vec3>()
    }

    proof fn alignment_wf() {
        lemma_small_pow2(16);
    }

    fn alignment() -> u64 {
        16
    }
}

impl Std140ArrayElement for mat2x3 {
    open spec fn spec_size() -> nat {
        2 * spec_element_stride_of::<vec3>()
    }

    proof fn size_wf() {
    }

    fn size() -> u64 {
        32
    }
}

/// A matrix with 2 columns and 4 rows, represented by 2 `vec4` column
/// vectors.
#[derive(Clone, Copy, PartialEq, Debug)]
pub struct mat2x4 {
    pub columns: array<vec4, 2>,
}

impl mat2x4 {
    /// The column sequence of the all-zeros matrix.
    pub open spec fn spec_zero_columns() -> Seq<vec4> {
        seq![vec4::spec_zero(), vec4::spec_zero()]
    }

    /// Creates a new `mat2x4` with zeros in all positions.
    pub fn zero() -> (m: Self)
        ensures
            m.columns@ == Self::spec_zero_columns(),
    {
        crate::mat2x4(vec4::zero(), vec4::zero())
    }
}

impl ReprStd140 for mat2x4 {
    open spec fn spec_alignment() -> nat {
        spec_element_alignment_of::<vec4>()
    }

    proof fn alignment_wf() {
        lemma_small_pow2(16);
    }

    fn alignment() -> u64 {
        16
    }
}

impl Std140ArrayElement for mat2x4 {
    open spec fn spec_size() -> nat {
        2 * spec_element_stride_of::<vec4>()
    }

    proof fn size_wf() {
    }

    fn size() -> u64 {
        32
    }
}

/// A matrix with 3 columns and 2 rows, represented by 3 `vec2` column
/// vectors.
#[derive(Clone, Copy, PartialEq, Debug)]
pub struct mat3x2 {
    pub columns: array<vec2, 3>,
}

impl mat3x2 {
    /// The column sequence of the all-zeros matrix.
    pub open spec fn spec_zero_columns() -> Seq<vec2> {
        seq![vec2::spec_zero(), vec2::spec_zero(), vec2::spec_zero()]
    }

    /// Creates a new `mat3x2` with zeros in all positions.
    pub fn zero() -> (m: Self)
        ensures
            m.columns@ == Self::spec_zero_columns(),
    {
        crate::mat3x2(vec2::zero(), vec2::zero(), vec2::zero())
    }
}

impl ReprStd140 for mat3x2 {
    open spec fn spec_alignment() -> nat {
        spec_element_alignment_of::<vec2>()
    }

    proof fn alignment_wf() {
        lemma_small_pow2(16);
    }

    fn alignment() -> u64 {
        16
    }
}

impl Std140ArrayElement for mat3x2 {
    open spec fn spec_size() -> nat {
        3 * spec_element_stride_of::<vec2>()
    }

    proof fn size_wf() {
    }

    fn size() -> u64 {
        48
    }
}

/// A matrix with 3 columns and 3 rows, represented by 3 `vec3` column
/// vectors.
#[derive(Clone, Copy, PartialEq, Debug)]
pub struct mat3x3 {
    pub columns: array<vec3, 3>,
}

impl mat3x3 {
    /// The column sequence of the all-zeros matrix.
    pub open spec fn spec_zero_columns() -> Seq<vec3> {
        seq![vec3::spec_zero(), vec3::spec_zero(), vec3::spec_zero()]
    }

    /// Creates a new `mat3x3` with zeros in all positions.
    pub fn zero() -> (m: Self)
        ensures
            m.columns@ == Self::spec_zero_columns(),
    {
        crate::mat3x3(vec3::zero(), vec3::zero(), vec3::zero())
    }

    /// The column sequence of the identity matrix: column `i` carries the
    /// bit pattern of `1.0` in component `i` and of `0.0` everywhere else.
    pub open spec fn spec_identity_columns() -> Seq<vec3> {
        seq![
            vec3(float(FLOAT_ONE_BITS), float(FLOAT_ZERO_BITS), float(FLOAT_ZERO_BITS)),
            vec3(float(FLOAT_ZERO_BITS), float(FLOAT_ONE_BITS), float(FLOAT_ZERO_BITS)),
            vec3(float(FLOAT_ZERO_BITS), float(FLOAT_ZERO_BITS), float(FLOAT_ONE_BITS)),
        ]
    }

    /// Creates the 3x3 identity matrix.
    pub fn identity() -> (m: Self)
        ensures
            m.columns@ == Self::spec_identity_columns(),
    {
        crate::mat3x3(
            vec3(float(FLOAT_ONE_BITS), float(FLOAT_ZERO_BITS), float(FLOAT_ZERO_BITS)),
            vec3(float(FLOAT_ZERO_BITS), float(FLOAT_ONE_BITS), float(FLOAT_ZERO_BITS)),
            vec3(float(FLOAT_ZERO_BITS), float(FLOAT_ZERO_BITS), float(FLOAT_ONE_BITS)),
        )
    }
}

impl ReprStd140 for mat3x3 {
    open spec fn spec_alignment() -> nat {
        spec_element_alignment_of::<vec3>()
    }

    proof fn alignment_wf() {
        lemma_small_pow2(16);
    }

    fn alignment() -> u64 {
        16
    }
}

impl Std140ArrayElement for mat3x3 {
    open spec fn spec_size() -> nat {
        3 * spec_element_stride_of::<vec3>()
    }

    proof fn size_wf() {
    }

    fn size() -> u64 {
        48
    }
}

/// A matrix with 3 columns and 4 rows, represented by 3 `vec4` column
/// vectors.
#[derive(Clone, Copy, PartialEq, Debug)]
pub struct mat3x4 {
    pub columns: array<vec4, 3>,
}

impl mat3x4 {
    /// The column sequence of the all-zeros matrix.
    pub open spec fn spec_zero_columns() -> Seq<vec4> {
        seq![vec4::spec_zero(), vec4::spec_zero(), vec4::spec_zero()]
    }

    /// Creates a new `mat3x4` with zeros in all positions.
    pub fn zero() -> (m: Self)
        ensures
            m.columns@ == Self::spec_zero_columns(),
    {
        crate::mat3x4(vec4::zero(), vec4::zero(), vec4::zero())
    }
}

impl ReprStd140 for mat3x4 {
    open spec fn spec_alignment() -> nat {
        spec_element_alignment_of::<vec4>()
    }

    proof fn alignment_wf() {
        lemma_small_pow2(16);
    }

    fn alignment() -> u64 {
        16
    }
}

impl Std140ArrayElement for mat3x4 {
    open spec fn spec_size() -> nat {
        3 * spec_element_stride_of::<vec4>()
    }

    proof fn size_wf() {
    }

    fn size() -> u64 {
        48
    }
}

/// A matrix with 4 columns and 2 rows, represented by 4 `vec2` column
/// vectors.
#[derive(Clone, Copy, PartialEq, Debug)]
pub struct mat4x2 {
    pub columns: array<vec2, 4>,
}

impl mat4x2 {
    /// The column sequence of the all-zeros matrix.
    pub open spec fn spec_zero_columns() -> Seq<vec2> {
        seq![vec2::spec_zero(), vec2::spec_zero(), vec2::spec_zero(), vec2::spec_zero()]
    }

    /// Creates a new `mat4x2` with zeros in all positions.
    pub fn zero() -> (m: Self)
        ensures
            m.columns@ == Self::spec_zero_columns(),
    {
        crate::mat4x2(vec2::zero(), vec2::zero(), vec2::zero(), vec2::zero())
    }
}

impl ReprStd140 for mat4x2 {
    open spec fn spec_alignment() -> nat {
        spec_element_alignment_of::<vec2>()
    }

    proof fn alignment_wf() {
        lemma_small_pow2(16);
    }

    fn alignment() -> u64 {
        16
    }
}

impl Std140ArrayElement for mat4x2 {
    open spec fn spec_size() -> nat {
        4 * spec_element_stride_of::<vec2>()
    }

    proof fn size_wf() {
    }

    fn size() -> u64 {
        64
    }
}

/// A matrix with 4 columns and 3 rows, represented by 4 `vec3` column
/// vectors.
#[derive(Clone, Copy, PartialEq, Debug)]
pub struct mat4x3 {
    pub columns: array<vec3, 4>,
}

impl mat4x3 {
    /// The column sequence of the all-zeros matrix.
    pub open spec fn spec_zero_columns() -> Seq<vec3> {
        seq![vec3::spec_zero(), vec3::spec_zero(), vec3::spec_zero(), vec3::spec_zero()]
    }

    /// Creates a new `mat4x3` with zeros in all positions.
    pub fn zero() -> (m: Self)
        ensures
            m.columns@ == Self::spec_zero_columns(),
    {
        crate::mat4x3(vec3::zero(), vec3::zero(), vec3::zero(), vec3::zero())
    }
}

impl ReprStd140 for mat4x3 {
    open spec fn spec_alignment() -> nat {
        spec_element_alignment_of::<vec3>()
    }

    proof fn alignment_wf() {
        lemma_small_pow2(16);
    }

    fn alignment() -> u64 {
        16
    }
}

impl Std140ArrayElement for mat4x3 {
    open spec fn spec_size() -> nat {
        4 * spec_element_stride_of::<vec3>()
    }

    proof fn size_wf() {
    }

    fn size() -> u64 {
        64
    }
}

/// A matrix with 4 columns and 4 rows, represented by 4 `vec4` column
/// vectors.
#[derive(Clone, Copy, PartialEq, Debug)]
pub struct mat4x4 {
    pub columns: array<vec4, 4>,
}

impl mat4x4 {
    /// The column sequence of the all-zeros matrix.
    pub open spec fn spec_zero_columns() -> Seq<vec4> {
        seq![vec4::spec_zero(), vec4::spec_zero(), vec4::spec_zero(), vec4::spec_zero()]
    }

    /// Creates a new `mat4x4` with zeros in all positions.
    pub fn zero() -> (m: Self)
        ensures
            m.columns@ == Self::spec_zero_columns(),
    {
        crate::mat4x4(vec4::zero(), vec4::zero(), vec4::zero(), vec4::zero())
    }

    /// The column sequence of the identity matrix: column `i` carries the
    /// bit pattern of `1.0` in component `i` and of `0.0` everywhere else.
    pub open spec fn spec_identity_columns() -> Seq<vec4> {
        seq![
            vec4(float(FLOAT_ONE_BITS), float(FLOAT_ZERO_BITS), float(FLOAT_ZERO_BITS), float(FLOAT_ZERO_BITS)),
            vec4(float(FLOAT_ZERO_BITS), float(FLOAT_ONE_BITS), float(FLOAT_ZERO_BITS), float(FLOAT_ZERO_BITS)),
            vec4(float(FLOAT_ZERO_BITS), float(FLOAT_ZERO_BITS), float(FLOAT_ONE_BITS), float(FLOAT_ZERO_BITS)),
            vec4(float(FLOAT_ZERO_BITS), float(FLOAT_ZERO_BITS), float(FLOAT_ZERO_BITS), float(FLOAT_ONE_BITS)),
        ]
    }

    /// Creates the 4x4 identity matrix.
    pub fn identity() -> (m: Self)
        ensures
            m.columns@ == Self::spec_identity_columns(),
    {
        crate::mat4x4(
            vec4(float(FLOAT_ONE_BITS), float(FLOAT_ZERO_BITS), float(FLOAT_ZERO_BITS), float(FLOAT_ZERO_BITS)),
            vec4(float(FLOAT_ZERO_BITS), float(FLOAT_ONE_BITS), float(FLOAT_ZERO_BITS), float(FLOAT_ZERO_BITS)),
            vec4(float(FLOAT_ZERO_BITS), float(FLOAT_ZERO_BITS), float(FLOAT_ONE_BITS), float(FLOAT_ZERO_BITS)),
            vec4(float(FLOAT_ZERO_BITS), float(FLOAT_ZERO_BITS), float(FLOAT_ZERO_BITS), float(FLOAT_ONE_BITS)),
        )
    }
}

impl ReprStd140 for mat4x4 {
    open spec fn spec_alignment() -> nat {
        spec_element_alignment_of::<vec4>()
    }

    proof fn alignment_wf() {
        lemma_small_pow2(16);
    }

    fn alignment() -> u64 {
        16
    }
}

impl Std140ArrayElement for mat4x4 {
    open spec fn spec_size() -> nat {
        4 * spec_element_stride_of::<vec4>()
    }

    proof fn size_wf() {
    }

    fn size() -> u64 {
        64
    }
}

/// Every matrix type is aligned at least as strictly as the column vectors it
/// directly contains.
pub proof fn lemma_matrix_alignment_covers_columns()
    ensures
        mat2x2::spec_alignment() >= vec2::spec_alignment(),
        mat2x3::spec_alignment() >= vec3::spec_alignment(),
        mat2x4::spec_alignment() >= vec4::spec_alignment(),
        mat3x2::spec_alignment() >= vec2::spec_alignment(),
        mat3x3::spec_alignment() >= vec3::spec_alignment(),
        mat3x4::spec_alignment() >= vec4::spec_alignment(),
        mat4x2::spec_alignment() >= vec2::spec_alignment(),
        mat4x3::spec_alignment() >= vec3::spec_alignment(),
        mat4x4::spec_alignment() >= vec4::spec_alignment(),
{
}

/// The all-zeros matrix is exactly the matrix built from four all-zero
/// columns: the two construction paths yield equal values.
pub proof fn lemma_mat4x4_zero_from_zero_columns(z: mat4x4, m: mat4x4)
    requires
        z.columns@ == mat4x4::spec_zero_columns(),
        m.columns@ == seq![
            vec4::spec_zero(),
            vec4::spec_zero(),
            vec4::spec_zero(),
            vec4::spec_zero(),
        ],
    ensures
        z == m,
{
    assert forall|j: int| 0 <= j < 4 implies z.columns.0@[j] == m.columns.0@[j] by {
        assert(z.columns.0@[j].0 == m.columns.0@[j].0);
    }
    assert(z.columns.0 =~= m.columns.0);
}

/// In the 4x4 identity matrix, component `j` of column `i` carries the bit
/// pattern of `1.0` exactly on the diagonal (`i == j`) and of `0.0`
/// everywhere else.
pub proof fn lemma_mat4x4_identity_components()
    ensures
        forall|i: int, j: int|
            0 <= i < 4 && 0 <= j < 4 ==> #[trigger] mat4x4::spec_identity_columns()[i].spec_index(j)
                == if i == j {
                    float(FLOAT_ONE_BITS)
                } else {
                    float(FLOAT_ZERO_BITS)
                },
{
}

} // verus!
