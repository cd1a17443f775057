//! IEEE-754 single-precision values carried as their 32-bit patterns.
//!
//! The mesh format stores its geometry as little-endian single-precision
//! values.  The library never builds a floating-point value itself: a
//! coordinate is a `u32` holding the IEEE-754 bit pattern, comparison and
//! absolute value are defined arithmetically on the pattern (they agree
//! with the IEEE-754 operations bit for bit), and the few rounded
//! operations the fingerprint and the transform algebra need are performed
//! behind trusted wrappers.
//!
//! Rounded results are deterministic in their operands' bit patterns, with
//! one exception: the payload of a NaN result is unspecified.  The spec
//! functions [`fadd`], [`fsub`], [`fmul`], [`fdiv`] therefore map every
//! NaN-producing operand pair to one canonical NaN, and the wrappers
//! promise their exact result only when the operation does not produce a
//! NaN.  [`f32_sim`] is equality up to the NaN payload.

use byteorder::ByteOrder;
use vstd::prelude::*;

verus! {

/// One canonical quiet-NaN pattern, used by the spec-level operations to
/// stand for every NaN a rounded operation may produce.
pub open spec fn f32_nan_canon() -> u32 {
    0x7fc0_0000
}

/// The pattern with its sign bit cleared (magnitude).
pub open spec fn f32_mag(bits: u32) -> u32 {
    bits % 0x8000_0000
}

/// Whether the sign bit is set.
pub open spec fn f32_is_neg(bits: u32) -> bool {
    bits >= 0x8000_0000
}

/// All-ones exponent with a non-zero mantissa: a NaN.
pub open spec fn f32_is_nan(bits: u32) -> bool {
    f32_mag(bits) > 0x7f80_0000
}

/// All-ones exponent with a zero mantissa: an infinity of either sign.
pub open spec fn f32_is_inf(bits: u32) -> bool {
    f32_mag(bits) == 0x7f80_0000
}

/// A zero of either sign.
pub open spec fn f32_is_zero(bits: u32) -> bool {
    f32_mag(bits) == 0
}

/// Order key: IEEE-754 comparison of non-NaN values is sign-magnitude
/// comparison of their patterns, with the two zeroes equal.
pub open spec fn f32_key(bits: u32) -> int {
    if f32_is_neg(bits) {
        -(f32_mag(bits) as int)
    } else {
        f32_mag(bits) as int
    }
}

/// The IEEE-754 `<` relation on bit patterns: false whenever either
/// operand is a NaN.
pub open spec fn f32_lt(a: u32, b: u32) -> bool {
    &&& !f32_is_nan(a)
    &&& !f32_is_nan(b)
    &&& f32_key(a) < f32_key(b)
}

/// The IEEE-754 `>` relation on bit patterns.
pub open spec fn f32_gt(a: u32, b: u32) -> bool {
    f32_lt(b, a)
}

/// Equality up to the NaN payload: the strongest relation a contract can
/// state about a rounded result.
pub open spec fn f32_sim(a: u32, b: u32) -> bool {
    a == b || (f32_is_nan(a) && f32_is_nan(b))
}

/// When IEEE-754 addition yields a NaN: a NaN operand, or opposite
/// infinities.
pub open spec fn add_is_nan(a: u32, b: u32) -> bool {
    ||| f32_is_nan(a)
    ||| f32_is_nan(b)
    ||| (f32_is_inf(a) && f32_is_inf(b) && f32_is_neg(a) != f32_is_neg(b))
}

/// When IEEE-754 subtraction yields a NaN: a NaN operand, or equal-signed
/// infinities.
pub open spec fn sub_is_nan(a: u32, b: u32) -> bool {
    ||| f32_is_nan(a)
    ||| f32_is_nan(b)
    ||| (f32_is_inf(a) && f32_is_inf(b) && f32_is_neg(a) == f32_is_neg(b))
}

/// When IEEE-754 multiplication yields a NaN: a NaN operand, or zero times
/// infinity.
pub open spec fn mul_is_nan(a: u32, b: u32) -> bool {
    ||| f32_is_nan(a)
    ||| f32_is_nan(b)
    ||| (f32_is_zero(a) && f32_is_inf(b))
    ||| (f32_is_inf(a) && f32_is_zero(b))
}

/// When IEEE-754 division yields a NaN: a NaN operand, zero over zero, or
/// infinity over infinity.
pub open spec fn div_is_nan(a: u32, b: u32) -> bool {
    ||| f32_is_nan(a)
    ||| f32_is_nan(b)
    ||| (f32_is_zero(a) && f32_is_zero(b))
    ||| (f32_is_inf(a) && f32_is_inf(b))
}

/// The pattern of the rounded IEEE-754 sum, meaningful only when
/// `!add_is_nan(a, b)`.
pub uninterp spec fn f32_add_bits(a: u32, b: u32) -> u32;

/// The pattern of the rounded IEEE-754 difference, meaningful only when
/// `!sub_is_nan(a, b)`.
pub uninterp spec fn f32_sub_bits(a: u32, b: u32) -> u32;

/// The pattern of the rounded IEEE-754 product, meaningful only when
/// `!mul_is_nan(a, b)`.
pub uninterp spec fn f32_mul_bits(a: u32, b: u32) -> u32;

/// The pattern of the rounded IEEE-754 quotient, meaningful only when
/// `!div_is_nan(a, b)`.
pub uninterp spec fn f32_div_bits(a: u32, b: u32) -> u32;

/// The value of the pattern truncated toward zero and saturated to `i32`,
/// meaningful only when the pattern is not a NaN.
pub uninterp spec fn f32_trunc_bits(a: u32) -> i32;

/// Total spec-level addition: NaN-producing pairs map to the canonical NaN.
pub open spec fn fadd(a: u32, b: u32) -> u32 {
    if add_is_nan(a, b) {
        f32_nan_canon()
    } else {
        f32_add_bits(a, b)
    }
}

/// Total spec-level subtraction.
pub open spec fn fsub(a: u32, b: u32) -> u32 {
    if sub_is_nan(a, b) {
        f32_nan_canon()
    } else {
        f32_sub_bits(a, b)
    }
}

/// Total spec-level multiplication.
pub open spec fn fmul(a: u32, b: u32) -> u32 {
    if mul_is_nan(a, b) {
        f32_nan_canon()
    } else {
        f32_mul_bits(a, b)
    }
}

/// Total spec-level division.
pub open spec fn fdiv(a: u32, b: u32) -> u32 {
    if div_is_nan(a, b) {
        f32_nan_canon()
    } else {
        f32_div_bits(a, b)
    }
}

/// Total spec-level truncation toward zero: every NaN maps to 0, exactly
/// as the executable cast does.
pub open spec fn ftrunc(a: u32) -> i32 {
    if f32_is_nan(a) {
        0
    } else {
        f32_trunc_bits(a)
    }
}

/// Relies on `byteorder::ByteOrder::read_f32` (defined as `f32::from_bits`
/// of the little-endian `u32`, a bit-for-bit conversion) and on IEEE-754
/// addition: for the same operand patterns the rounded sum has the same
/// pattern on every conforming platform, except that the payload of a NaN
/// result is unspecified.  A NaN comes exactly from a NaN operand or from
/// adding opposite infinities.
#[verifier::external_body]
pub fn add_bits(a: u32, b: u32) -> (r: u32)
    ensures
        add_is_nan(a, b) ==> f32_is_nan(r),
        !add_is_nan(a, b) ==> r == f32_add_bits(a, b),
{
    let x = byteorder::LittleEndian::read_f32(&a.to_le_bytes());
    let y = byteorder::LittleEndian::read_f32(&b.to_le_bytes());
    (x + y).to_bits()
}

/// Relies on `byteorder::ByteOrder::read_f32` and IEEE-754 subtraction;
/// see [`add_bits`].  A NaN comes exactly from a NaN operand or from
/// subtracting equal-signed infinities.
#[verifier::external_body]
pub fn sub_bits(a: u32, b: u32) -> (r: u32)
    ensures
        sub_is_nan(a, b) ==> f32_is_nan(r),
        !sub_is_nan(a, b) ==> r == f32_sub_bits(a, b),
{
    let x = byteorder::LittleEndian::read_f32(&a.to_le_bytes());
    let y = byteorder::LittleEndian::read_f32(&b.to_le_bytes());
    (x - y).to_bits()
}

/// Relies on `byteorder::ByteOrder::read_f32` and IEEE-754 multiplication;
/// see [`add_bits`].  A NaN comes exactly from a NaN operand or from zero
/// times infinity.
#[verifier::external_body]
pub fn mul_bits(a: u32, b: u32) -> (r: u32)
    ensures
        mul_is_nan(a, b) ==> f32_is_nan(r),
        !mul_is_nan(a, b) ==> r == f32_mul_bits(a, b),
{
    let x = byteorder::LittleEndian::read_f32(&a.to_le_bytes());
    let y = byteorder::LittleEndian::read_f32(&b.to_le_bytes());
    (x * y).to_bits()
}

/// Relies on `byteorder::ByteOrder::read_f32` and IEEE-754 division; see
/// [`add_bits`].  A NaN comes exactly from a NaN operand, zero over zero,
/// or infinity over infinity.
#[verifier::external_body]
pub fn div_bits(a: u32, b: u32) -> (r: u32)
    ensures
        div_is_nan(a, b) ==> f32_is_nan(r),
        !div_is_nan(a, b) ==> r == f32_div_bits(a, b),
{
    let x = byteorder::LittleEndian::read_f32(&a.to_le_bytes());
    let y = byteorder::LittleEndian::read_f32(&b.to_le_bytes());
    (x / y).to_bits()
}

/// Relies on `byteorder::ByteOrder::read_f32` and on Rust's
/// float-to-integer cast, which truncates toward zero, saturates at the
/// target type's bounds, and maps every NaN to 0.
#[verifier::external_body]
pub fn trunc_bits(a: u32) -> (r: i32)
    ensures
        f32_is_nan(a) ==> r == 0,
        !f32_is_nan(a) ==> r == f32_trunc_bits(a),
{
    let x = byteorder::LittleEndian::read_f32(&a.to_le_bytes());
    x as i32
}

/// Relies on `byteorder::ByteOrder::read_f32` and `f32::cos`.  Rust
/// documents the precision of `cos` as platform-specific, so nothing is
/// promised of the result; callers state their behaviour for every value
/// it may take.
#[verifier::external_body]
pub fn cos_bits(t: u32) -> u32 {
    byteorder::LittleEndian::read_f32(&t.to_le_bytes()).cos().to_bits()
}

/// Relies on `byteorder::ByteOrder::read_f32` and `f32::sin`; as with
/// [`cos_bits`], nothing is promised of the result.
#[verifier::external_body]
pub fn sin_bits(t: u32) -> u32 {
    byteorder::LittleEndian::read_f32(&t.to_le_bytes()).sin().to_bits()
}

/// IEEE-754 absolute value is exactly clearing the sign bit, so it needs
/// no trusted wrapper.
pub fn abs_bits(a: u32) -> (r: u32)
    ensures
        r == f32_mag(a),
{
    a % 0x8000_0000
}

/// IEEE-754 `<` on bit patterns: false when either operand is a NaN, and
/// otherwise sign-magnitude comparison with the two zeroes equal.
pub fn lt_bits(a: u32, b: u32) -> (r: bool)
    ensures
        r == f32_lt(a, b),
{
    let ma = a % 0x8000_0000;
    let mb = b % 0x8000_0000;
    if ma > 0x7f80_0000 || mb > 0x7f80_0000 {
        false
    } else {
        let neg_a = a >= 0x8000_0000;
        let neg_b = b >= 0x8000_0000;
        if neg_a && neg_b {
            mb < ma
        } else if neg_a {
            ma != 0 || mb != 0
        } else if neg_b {
            false
        } else {
            ma < mb
        }
    }
}

/// IEEE-754 `>` on bit patterns.
pub fn gt_bits(a: u32, b: u32) -> (r: bool)
    ensures
        r == f32_gt(a, b),
{
    lt_bits(b, a)
}

/// [`fadd`] respects [`f32_sim`]: operands equal up to the NaN payload
/// give equal spec-level sums.
pub proof fn lemma_fadd_congruent(a1: u32, a2: u32, b1: u32, b2: u32)
    requires
        f32_sim(a1, a2),
        f32_sim(b1, b2),
    ensures
        fadd(a1, b1) == fadd(a2, b2),
{
}

/// [`fsub`] respects [`f32_sim`].
pub proof fn lemma_fsub_congruent(a1: u32, a2: u32, b1: u32, b2: u32)
    requires
        f32_sim(a1, a2),
        f32_sim(b1, b2),
    ensures
        fsub(a1, b1) == fsub(a2, b2),
{
}

/// [`fmul`] respects [`f32_sim`].
pub proof fn lemma_fmul_congruent(a1: u32, a2: u32, b1: u32, b2: u32)
    requires
        f32_sim(a1, a2),
        f32_sim(b1, b2),
    ensures
        fmul(a1, b1) == fmul(a2, b2),
{
}

/// [`fdiv`] respects [`f32_sim`].
pub proof fn lemma_fdiv_congruent(a1: u32, a2: u32, b1: u32, b2: u32)
    requires
        f32_sim(a1, a2),
        f32_sim(b1, b2),
    ensures
        fdiv(a1, b1) == fdiv(a2, b2),
{
}

/// [`f32_mag`] respects [`f32_sim`]: clearing the sign bit keeps a NaN a
/// NaN.
pub proof fn lemma_fmag_congruent(a1: u32, a2: u32)
    requires
        f32_sim(a1, a2),
    ensures
        f32_sim(f32_mag(a1), f32_mag(a2)),
{
}

/// [`ftrunc`] respects [`f32_sim`]: the cast collapses every NaN to 0.
pub proof fn lemma_ftrunc_congruent(a1: u32, a2: u32)
    requires
        f32_sim(a1, a2),
    ensures
        ftrunc(a1) == ftrunc(a2),
{
}

} // verus!
