//! The std140 layout rules: alignment rounding, array-element strides, and
//! the offset engine that validates an aggregate's field placement.

use vstd::prelude::*;
use vstd::arithmetic::div_mod::{
    lemma_fundamental_div_mod, lemma_mod_division_less_than_divisor, lemma_mod_multiples_basic,
};
use vstd::arithmetic::mul::{lemma_mul_is_commutative, lemma_mul_is_distributive_add};
use vstd::arithmetic::power::{lemma_pow_adds, lemma_pow_strictly_increases, pow};
use vstd::arithmetic::power2::{is_pow2, is_pow2_equiv};

verus! {

/// The smallest multiple of `a` that is at least `n` (the std140 rounding rule).
///
/// Degenerate divisors (`a <= 0`) leave `n` unchanged so that the function is
/// total; every use in this crate has `a > 0`.
pub open spec fn round_up_spec(n: int, a: int) -> int
    recommends
        0 <= n,
        0 < a,
{
    if a <= 0 {
        n
    } else if n % a == 0 {
        n
    } else {
        n + a - n % a
    }
}

/// Rounding up never moves a value down.
pub proof fn lemma_round_up_ge(n: int, a: int)
    requires
        0 <= n,
    ensures
        n <= round_up_spec(n, a),
{
    if a > 0 {
        lemma_mod_division_less_than_divisor(n, a);
    }
}

/// For a positive divisor, `round_up_spec` lands on a multiple of the divisor,
/// within one divisor's length of the start.
pub proof fn lemma_round_up_properties(n: int, a: int)
    requires
        0 <= n,
        0 < a,
    ensures
        n <= round_up_spec(n, a) < n + a,
        round_up_spec(n, a) % a == 0,
        n % a == 0 ==> round_up_spec(n, a) == n,
{
    lemma_mod_division_less_than_divisor(n, a);
    if n % a != 0 {
        let q = n / a;
        lemma_fundamental_div_mod(n, a);
        assert(n - n % a == a * q);
        lemma_mul_is_distributive_add(a, q, 1);
        assert(round_up_spec(n, a) == a * (q + 1));
        lemma_mul_is_commutative(a, q + 1);
        lemma_mod_multiples_basic(q + 1, a);
    }
}

/// A power of two is positive.
pub proof fn lemma_pow2_positive(n: int)
    requires
        is_pow2(n),
    ensures
        n >= 1,
{
    reveal(is_pow2);
}

/// The alignments this library deals in are small powers of two.
pub proof fn lemma_small_pow2(n: int)
    requires
        n == 1 || n == 2 || n == 4 || n == 8 || n == 16 || n == 32 || n == 64,
    ensures
        is_pow2(n),
{
    reveal_with_fuel(is_pow2, 8);
}

/// Divisibility is transitive: a multiple of `m` is a multiple of every
/// divisor of `m`.
pub proof fn lemma_mod_divides_transitive(x: int, m: int, d: int)
    requires
        0 < d,
        0 < m,
        x % m == 0,
        m % d == 0,
    ensures
        x % d == 0,
{
    lemma_fundamental_div_mod(x, m);
    lemma_fundamental_div_mod(m, d);
    assert(x == m * (x / m));
    assert(m == d * (m / d));
    assert(m * (x / m) == d * ((m / d) * (x / m))) by (nonlinear_arith)
        requires
            m == d * (m / d),
    ;
    lemma_mul_is_commutative(d, (m / d) * (x / m));
    lemma_mod_multiples_basic((m / d) * (x / m), d);
}

/// A smaller power of two divides a larger one.
pub proof fn lemma_pow2_divides(d: int, a: int)
    requires
        is_pow2(d),
        is_pow2(a),
        d <= a,
    ensures
        a % d == 0,
{
    is_pow2_equiv(d);
    is_pow2_equiv(a);
    let kd = choose|i: nat| pow(2, i) == d;
    let ka = choose|i: nat| pow(2, i) == a;
    lemma_pow2_positive(d);
    if ka < kd {
        lemma_pow_strictly_increases(2, ka, kd);
    }
    lemma_pow_adds(2, kd, (ka - kd) as nat);
    assert(a == d * pow(2, (ka - kd) as nat));
    lemma_mul_is_commutative(d, pow(2, (ka - kd) as nat));
    lemma_mod_multiples_basic(pow(2, (ka - kd) as nat), d);
}

/// The base alignment of an std140 array element whose element type has base
/// alignment `a`: the element alignment rounded up to at least 16 bytes.
pub open spec fn spec_element_alignment(a: int) -> int {
    if a >= 16 {
        a
    } else {
        16
    }
}

/// The stride between consecutive std140 array elements whose element type
/// has base alignment `a` and size `s`: the size rounded up to the element
/// slot's (at least 16-byte) alignment.
pub open spec fn spec_element_stride(a: int, s: int) -> int {
    round_up_spec(s, spec_element_alignment(a))
}

/// The std140 array-element rule: an element slot is aligned at least as
/// strictly as the element itself, to a multiple of 16 bytes, and the stride
/// between slots is a multiple of 16 bytes — whatever the element's own
/// alignment. Wrapping a 4-byte scalar therefore yields a 16-byte stride.
pub proof fn lemma_element_stride_multiple_of_16(a: int, s: int)
    requires
        is_pow2(a),
        0 <= s,
    ensures
        spec_element_alignment(a) >= a,
        spec_element_alignment(a) >= 16,
        spec_element_alignment(a) % 16 == 0,
        is_pow2(spec_element_alignment(a)),
        s <= spec_element_stride(a, s),
        spec_element_stride(a, s) % 16 == 0,
{
    let m = spec_element_alignment(a);
    lemma_small_pow2(16);
    lemma_pow2_positive(a);
    if a >= 16 {
        lemma_pow2_divides(16, a);
    }
    lemma_round_up_properties(s, m);
    lemma_mod_divides_transitive(spec_element_stride(a, s), m, 16);
}

/// Returns the base alignment of an array-element slot for an element type of
/// base alignment `a`.
pub fn element_alignment(a: u64) -> (r: u64)
    ensures
        r == spec_element_alignment(a as int),
{
    if a >= 16 {
        a
    } else {
        16
    }
}

/// Returns the stride between array-element slots for an element type of base
/// alignment `a` and size `s`, reporting a stride that would not fit in a
/// machine word instead of wrapping.
pub fn element_stride(a: u64, s: u64) -> (r: Option<u64>)
    ensures
        match r {
            Some(v) => v == spec_element_stride(a as int, s as int),
            None => spec_element_stride(a as int, s as int) > u64::MAX,
        },
{
    round_up_checked(s, element_alignment(a))
}

/// Rounds `n` up to the next multiple of `a`, reporting a rounded value that
/// would not fit in a machine word instead of wrapping.
pub fn round_up_checked(n: u64, a: u64) -> (r: Option<u64>)
    requires
        a > 0,
    ensures
        match r {
            Some(v) => v == round_up_spec(n as int, a as int),
            None => round_up_spec(n as int, a as int) > u64::MAX,
        },
{
    let rem = n % a;
    if rem == 0 {
        Some(n)
    } else {
        proof {
            lemma_mod_division_less_than_divisor(n as int, a as int);
            vstd::arithmetic::div_mod::lemma_mod_decreases(n as nat, a as nat);
        }
        (n - rem).checked_add(a)
    }
}

/// Returns whether `n` is a power of two.
pub fn is_power_of_two(n: u64) -> (r: bool)
    ensures
        r == is_pow2(n as int),
{
    proof {
        reveal(is_pow2);
    }
    if n == 0 {
        return false;
    }
    let mut m = n;
    while m > 1
        invariant
            m >= 1,
            is_pow2(m as int) == is_pow2(n as int),
        decreases m,
    {
        if m % 2 != 0 {
            proof {
                reveal(is_pow2);
            }
            return false;
        }
        proof {
            reveal(is_pow2);
        }
        m = m / 2;
    }
    proof {
        reveal(is_pow2);
    }
    true
}

/// One field of an aggregate's schema: the field's name, the std140 base
/// alignment and byte size of its type, and the offset at which the host
/// language actually placed the field inside the aggregate.
#[derive(Debug)]
pub struct FieldSchema {
    pub name: String,
    pub alignment: u64,
    pub size: u64,
    pub offset: u64,
}

/// Why an aggregate's schema was rejected, naming the offending field.
#[derive(Clone, PartialEq, Eq, Debug)]
pub enum LayoutError {
    /// The field's declared base alignment is not a power of two.
    AlignmentNotPowerOfTwo { field: usize, name: String },
    /// The host language placed the field at offset `actual`, but std140
    /// places it at offset `expected`.
    OffsetMismatch { field: usize, name: String, expected: u64, actual: u64 },
    /// The computed layout does not fit in a machine word.
    SizeOverflow,
}

/// The layout of a validated aggregate: the std140 offset of every field, and
/// the aggregate's own base alignment and byte size, ready for use as a field
/// or array element of a further aggregate.
#[derive(Debug)]
pub struct StructLayout {
    pub offsets: Vec<u64>,
    pub alignment: u64,
    pub size: u64,
}

/// The end of the first `i` fields of the schema: field `i - 1`'s std140
/// offset plus its size, or 0 when no field has been placed yet.
pub open spec fn spec_end_offset(fields: Seq<FieldSchema>, i: int) -> int
    decreases i,
{
    if i <= 0 {
        0
    } else {
        round_up_spec(spec_end_offset(fields, i - 1), fields[i - 1].alignment as int)
            + fields[i - 1].size
    }
}

/// The std140 offset of field `i`: the end of the fields before it, rounded
/// up to the field's base alignment.
pub open spec fn spec_field_offset(fields: Seq<FieldSchema>, i: int) -> int {
    round_up_spec(spec_end_offset(fields, i), fields[i].alignment as int)
}

/// The largest base alignment among the first `i` fields, at least 1.
pub open spec fn spec_max_alignment(fields: Seq<FieldSchema>, i: int) -> int
    decreases i,
{
    if i <= 0 {
        1
    } else if fields[i - 1].alignment >= spec_max_alignment(fields, i - 1) {
        fields[i - 1].alignment as int
    } else {
        spec_max_alignment(fields, i - 1)
    }
}

/// The base alignment of the aggregate: the largest field alignment, rounded
/// up to at least 16 bytes.
pub open spec fn spec_struct_alignment(fields: Seq<FieldSchema>) -> int {
    round_up_spec(spec_max_alignment(fields, fields.len() as int), 16)
}

/// The byte size of the aggregate: the end of its last field, rounded up to
/// the aggregate's base alignment.
pub open spec fn spec_struct_size(fields: Seq<FieldSchema>) -> int {
    round_up_spec(spec_end_offset(fields, fields.len() as int), spec_struct_alignment(fields))
}

/// The first `i` fields all declare power-of-two base alignments.
pub open spec fn spec_alignments_ok(fields: Seq<FieldSchema>, i: int) -> bool {
    forall|j: int| 0 <= j < i ==> is_pow2(#[trigger] fields[j].alignment as int)
}

/// The first `i` fields all sit at their std140 offsets.
pub open spec fn spec_offsets_ok(fields: Seq<FieldSchema>, i: int) -> bool {
    forall|j: int| 0 <= j < i ==> #[trigger] fields[j].offset == spec_field_offset(fields, j)
}

/// A schema is valid when every field declares a power-of-two alignment and
/// sits at its std140 offset, and the whole layout fits in a machine word.
pub open spec fn spec_schema_ok(fields: Seq<FieldSchema>) -> bool {
    &&& spec_alignments_ok(fields, fields.len() as int)
    &&& spec_offsets_ok(fields, fields.len() as int)
    &&& spec_struct_size(fields) <= u64::MAX
}

/// End offsets are never negative.
pub proof fn lemma_end_offset_nonneg(fields: Seq<FieldSchema>, i: int)
    ensures
        0 <= spec_end_offset(fields, i),
    decreases i,
{
    if i > 0 {
        lemma_end_offset_nonneg(fields, i - 1);
        lemma_round_up_ge(spec_end_offset(fields, i - 1), fields[i - 1].alignment as int);
    }
}

/// End offsets only grow as fields are added.
pub proof fn lemma_end_offset_monotonic(fields: Seq<FieldSchema>, i: int, j: int)
    requires
        0 <= i <= j,
    ensures
        spec_end_offset(fields, i) <= spec_end_offset(fields, j),
    decreases j,
{
    if i < j {
        lemma_end_offset_monotonic(fields, i, j - 1);
        lemma_end_offset_nonneg(fields, j - 1);
        lemma_round_up_ge(spec_end_offset(fields, j - 1), fields[j - 1].alignment as int);
    }
}

/// Every field offset and every end offset fits under the aggregate's size.
pub proof fn lemma_struct_size_bounds(fields: Seq<FieldSchema>, i: int)
    requires
        0 <= i <= fields.len(),
    ensures
        spec_end_offset(fields, i) <= spec_struct_size(fields),
        i < fields.len() ==> spec_field_offset(fields, i) <= spec_struct_size(fields),
{
    let n = fields.len() as int;
    lemma_end_offset_monotonic(fields, i, n);
    lemma_end_offset_nonneg(fields, n);
    lemma_round_up_ge(spec_end_offset(fields, n), spec_struct_alignment(fields));
    if i < n {
        lemma_end_offset_monotonic(fields, i + 1, n);
        lemma_end_offset_nonneg(fields, i);
        lemma_round_up_ge(spec_end_offset(fields, i), fields[i].alignment as int);
    }
}

/// Fields of an aggregate never overlap: each field ends at or before the
/// next field's offset, which leaves only the padding the alignment rounding
/// inserts.
pub proof fn lemma_fields_do_not_overlap(fields: Seq<FieldSchema>, j: int)
    requires
        0 <= j,
        j + 1 < fields.len(),
    ensures
        spec_field_offset(fields, j) + fields[j].size <= spec_field_offset(fields, j + 1),
{
    lemma_end_offset_nonneg(fields, j + 1);
    lemma_round_up_ge(spec_end_offset(fields, j + 1), fields[j + 1].alignment as int);
}

/// The largest alignment of a prefix bounds each of its fields' alignments
/// and stays within a machine word.
pub proof fn lemma_max_alignment_bounds(fields: Seq<FieldSchema>, i: int)
    requires
        0 <= i <= fields.len(),
    ensures
        1 <= spec_max_alignment(fields, i) <= u64::MAX,
        forall|j: int| 0 <= j < i ==> #[trigger] fields[j].alignment <= spec_max_alignment(fields, i),
    decreases i,
{
    if i > 0 {
        lemma_max_alignment_bounds(fields, i - 1);
    }
}

/// The largest of a prefix's power-of-two alignments is itself a power of
/// two.
pub proof fn lemma_max_alignment_pow2(fields: Seq<FieldSchema>, i: int)
    requires
        0 <= i <= fields.len(),
        spec_alignments_ok(fields, i),
    ensures
        is_pow2(spec_max_alignment(fields, i)),
    decreases i,
{
    if i == 0 {
        lemma_small_pow2(1);
    } else {
        lemma_max_alignment_pow2(fields, i - 1);
    }
}

/// When every field's alignment is a power of two, the aggregate's alignment
/// is a power of two and a multiple of 16 that covers every field's
/// alignment. This is the aggregate case of the rule that a type is aligned
/// at least as strictly as each component it directly contains.
pub proof fn lemma_struct_alignment_properties(fields: Seq<FieldSchema>)
    requires
        spec_alignments_ok(fields, fields.len() as int),
    ensures
        is_pow2(spec_struct_alignment(fields)),
        16 <= spec_struct_alignment(fields) <= u64::MAX,
        spec_struct_alignment(fields) % 16 == 0,
        forall|j: int| 0 <= j < fields.len() ==> #[trigger] fields[j].alignment
            <= spec_struct_alignment(fields),
{
    let n = fields.len() as int;
    let m = spec_max_alignment(fields, n);
    lemma_max_alignment_bounds(fields, n);
    lemma_max_alignment_pow2(fields, n);
    lemma_small_pow2(16);
    if m >= 16 {
        lemma_pow2_divides(16, m);
        lemma_round_up_properties(m, 16);
    } else {
        assert(m % 16 == m);
    }
}

/// Computes the std140 offset of every field of the given schema and checks
/// the host language's actual placement against it.
///
/// Succeeds exactly when the schema is valid: every field's declared
/// alignment is a power of two, every field sits at its std140 offset, and
/// the layout fits in a machine word. On success the returned layout carries
/// each field's offset and the aggregate's own base alignment and size, so
/// the aggregate may in turn stand as a field or array element. On failure
/// the error names the first offending field and, for a misplaced field, the
/// expected and actual offsets.
pub fn validate_struct(fields: &Vec<FieldSchema>) -> (r: Result<StructLayout, LayoutError>)
    ensures
        r is Ok <==> spec_schema_ok(fields@),
        r matches Ok(s) ==> {
            &&& s.offsets@.len() == fields@.len()
            &&& forall|j: int|
                0 <= j < fields@.len() ==> s.offsets@[j] == spec_field_offset(fields@, j)
            &&& s.alignment == spec_struct_alignment(fields@)
            &&& s.size == spec_struct_size(fields@)
            &&& is_pow2(s.alignment as int)
            &&& 16 <= s.alignment
            &&& s.alignment % 16 == 0
            &&& s.size % s.alignment == 0
            &&& forall|j: int|
                0 <= j < fields@.len() ==> #[trigger] fields@[j].alignment <= s.alignment
        },
        r matches Err(e) ==> match e {
            LayoutError::AlignmentNotPowerOfTwo { field, name } => {
                &&& field < fields@.len()
                &&& name == fields@[field as int].name
                &&& !is_pow2(fields@[field as int].alignment as int)
                &&& spec_alignments_ok(fields@, field as int)
                &&& spec_offsets_ok(fields@, field as int)
            },
            LayoutError::OffsetMismatch { field, name, expected, actual } => {
                &&& field < fields@.len()
                &&& name == fields@[field as int].name
                &&& expected == spec_field_offset(fields@, field as int)
                &&& actual == fields@[field as int].offset
                &&& expected != actual
                &&& spec_alignments_ok(fields@, field as int + 1)
                &&& spec_offsets_ok(fields@, field as int)
            },
            LayoutError::SizeOverflow => spec_struct_size(fields@) > u64::MAX,
        },
{
    let ghost gf = fields@;
    let n = fields.len();
    let mut offsets: Vec<u64> = Vec::new();
    let mut end: u64 = 0;
    let mut max_align: u64 = 1;
    let mut i: usize = 0;
    while i < n
        invariant
            gf == fields@,
            n == gf.len(),
            i <= n,
            offsets@.len() == i,
            forall|j: int| 0 <= j < i ==> offsets@[j] == spec_field_offset(gf, j),
            spec_alignments_ok(gf, i as int),
            spec_offsets_ok(gf, i as int),
            end == spec_end_offset(gf, i as int),
            max_align == spec_max_alignment(gf, i as int),
        decreases n - i,
    {
        let f = &fields[i];
        if !is_power_of_two(f.alignment) {
            return Err(LayoutError::AlignmentNotPowerOfTwo { field: i, name: f.name.clone() });
        }
        proof {
            lemma_pow2_positive(f.alignment as int);
        }
        let offset = match round_up_checked(end, f.alignment) {
            Some(o) => o,
            None => {
                proof {
                    lemma_struct_size_bounds(gf, i as int);
                }
                return Err(LayoutError::SizeOverflow);
            },
        };
        if offset != f.offset {
            return Err(
                LayoutError::OffsetMismatch {
                    field: i,
                    name: f.name.clone(),
                    expected: offset,
                    actual: f.offset,
                },
            );
        }
        let new_end = match offset.checked_add(f.size) {
            Some(e) => e,
            None => {
                proof {
                    lemma_struct_size_bounds(gf, i as int + 1);
                }
                return Err(LayoutError::SizeOverflow);
            },
        };
        offsets.push(offset);
        end = new_end;
        if f.alignment > max_align {
            max_align = f.alignment;
        }
        i = i + 1;
    }
    proof {
        lemma_struct_alignment_properties(gf);
    }
    let alignment = match round_up_checked(max_align, 16) {
        Some(a) => a,
        None => {
            return Err(LayoutError::SizeOverflow);
        },
    };
    let size = match round_up_checked(end, alignment) {
        Some(s) => s,
        None => {
            return Err(LayoutError::SizeOverflow);
        },
    };
    proof {
        lemma_end_offset_nonneg(gf, n as int);
        lemma_round_up_properties(end as int, alignment as int);
    }
    Ok(StructLayout { offsets, alignment, size })
}

impl StructLayout {
    /// Describes this validated aggregate as one field of a further
    /// aggregate, placed by the host language at `offset`.
    pub fn as_field(&self, name: String, offset: u64) -> (f: FieldSchema)
        ensures
            f.name == name,
            f.alignment == self.alignment,
            f.size == self.size,
            f.offset == offset,
    {
        FieldSchema { name, alignment: self.alignment, size: self.size, offset }
    }
}

/// Two consecutive fields that both need 16-byte alignment while the first is
/// only 12 bytes long — two `vec3` fields, say — are not packed back to back:
/// the second starts at offset 16, not 12.
pub proof fn lemma_vec3_pair_not_packed(fields: Seq<FieldSchema>)
    requires
        fields.len() >= 2,
        fields[0].alignment == 16,
        fields[0].size == 12,
        fields[1].alignment == 16,
    ensures
        spec_field_offset(fields, 0) == 0,
        spec_end_offset(fields, 1) == 12,
        spec_field_offset(fields, 1) == 16,
{
    assert(spec_end_offset(fields, 0) == 0);
    assert(spec_end_offset(fields, 1) == 12);
}

/// An 8-byte field with 8-byte alignment followed by a 16-byte-aligned field
/// — a `vec2` followed by a `vec3`, say — places the second field at offset
/// 16, rounded up from 8.
pub proof fn lemma_vec2_then_vec3_offset(fields: Seq<FieldSchema>)
    requires
        fields.len() >= 2,
        fields[0].alignment == 8,
        fields[0].size == 8,
        fields[1].alignment == 16,
    ensures
        spec_field_offset(fields, 0) == 0,
        spec_end_offset(fields, 1) == 8,
        spec_field_offset(fields, 1) == 16,
{
    assert(spec_end_offset(fields, 0) == 0);
    assert(spec_end_offset(fields, 1) == 8);
}

} // verus!

