//! Exact operations on raw IEEE-754 single-precision bit patterns.
//!
//! Negation and absolute value of a binary32 value are pure sign-bit
//! manipulations, and the fast reciprocal square root starts from a pure
//! integer manipulation of the input's bit pattern. Both are exact and are
//! verified here; the Newton-Raphson refinement passes that follow the seed
//! are floating-point arithmetic and stay with the caller.

use vstd::prelude::*;

verus! {

/// Mask of the IEEE-754 binary32 sign bit.
pub const SIGN_BIT: u32 = 0x8000_0000;

/// Number of Newton-Raphson passes the fast reciprocal square root runs
/// after seeding.
pub const RSQRT_STEPS: u32 = 4;

/// Number of Newton-Raphson passes the higher-precision reciprocal square
/// root runs after seeding.
pub const RSQRT1_STEPS: u32 = 6;

/// Magic constant seeding the fast reciprocal square root.
pub const RSQRT_MAGIC: u32 = 0x5f37_5a82;

/// Magic constant seeding the higher-precision reciprocal square root.
pub const RSQRT1_MAGIC: u32 = 0x5f37_599e;

/// The bit pattern of the negated value: same magnitude, opposite sign bit.
pub open spec fn negated(b: u32) -> u32 {
    b ^ SIGN_BIT
}

/// The bit pattern of the absolute value: same magnitude, sign bit cleared.
pub open spec fn magnitude(b: u32) -> u32 {
    b & !SIGN_BIT
}

/// Whether the sign bit is set, i.e. the value is negative, a negative zero,
/// or a NaN with the sign bit set. Stated arithmetically — the sign bit is
/// the topmost, so it is set exactly on the upper half of the `u32` range —
/// which lets callers discharge it without bit-level reasoning;
/// [`lemma_sign_bit_characterization`] ties it to the mask test.
pub open spec fn sign_bit_set(b: u32) -> bool {
    b >= SIGN_BIT
}

/// Whether the pattern encodes a NaN: exponent field all ones and a
/// non-zero mantissa.
pub open spec fn is_nan_pattern(b: u32) -> bool {
    b & 0x7f80_0000 == 0x7f80_0000 && b & 0x007f_ffff != 0
}

/// Whether the pattern encodes a finite value: exponent field not all
/// ones, so neither an infinity nor a NaN.
pub open spec fn is_finite_pattern(b: u32) -> bool {
    b & 0x7f80_0000 != 0x7f80_0000
}

/// The arithmetic reading of the sign bit agrees with the mask test.
pub proof fn lemma_sign_bit_characterization(b: u32)
    ensures
        sign_bit_set(b) == (b & SIGN_BIT == SIGN_BIT),
{
    assert((b >= 0x8000_0000u32) == (b & 0x8000_0000u32 == 0x8000_0000u32)) by (bit_vector);
}

/// Flips the sign bit of a binary32 bit pattern. IEEE-754 negation is exactly
/// this operation, for every input including zeros, infinities and NaNs.
pub fn negate_bits(b: u32) -> (r: u32)
    ensures
        r == negated(b),
{
    b ^ SIGN_BIT
}

/// Clears the sign bit of a binary32 bit pattern. IEEE-754 absolute value is
/// exactly this operation.
pub fn abs_bits(b: u32) -> (r: u32)
    ensures
        r == magnitude(b),
{
    b & !SIGN_BIT
}

/// Negating a bit pattern twice restores it, so a pair of sign-consistent
/// column swaps composes to the identity.
pub proof fn lemma_negated_involution(b: u32)
    ensures
        negated(negated(b)) == b,
{
    assert((b ^ SIGN_BIT) ^ SIGN_BIT == b) by (bit_vector);
}

/// A pattern and its negation differ, agree in magnitude, and carry
/// opposite sign bits.
pub proof fn lemma_negated_changes_sign(b: u32)
    ensures
        negated(b) != b,
        magnitude(negated(b)) == magnitude(b),
        sign_bit_set(negated(b)) == !sign_bit_set(b),
{
    assert(b ^ 0x8000_0000u32 != b) by (bit_vector);
    assert((b ^ 0x8000_0000u32) & !0x8000_0000u32 == b & !0x8000_0000u32) by (bit_vector);
    assert(((b ^ 0x8000_0000u32) >= 0x8000_0000u32) == !(b >= 0x8000_0000u32)) by (bit_vector);
}

/// The magnitude is the pattern itself exactly when the sign bit is clear.
pub proof fn lemma_magnitude_of_nonnegative(b: u32)
    ensures
        !sign_bit_set(b) ==> magnitude(b) == b,
        sign_bit_set(b) ==> magnitude(b) == negated(b),
{
    assert(b < 0x8000_0000u32 ==> b & !0x8000_0000u32 == b) by (bit_vector);
    assert(b >= 0x8000_0000u32 ==> b & !0x8000_0000u32 == (b ^ 0x8000_0000u32)) by (bit_vector);
}

/// The seed the fast reciprocal square root refines: the input's bit
/// pattern halved as an integer (a right shift by one) and subtracted from
/// a magic constant. For patterns of non-negative inputs (sign bit clear)
/// the subtraction cannot wrap.
pub open spec fn rsqrt_seed_of(b: u32) -> u32
    recommends
        !sign_bit_set(b),
{
    (RSQRT_MAGIC - b / 2) as u32
}

/// The seed of the higher-precision variant, differing only in its magic
/// constant.
pub open spec fn rsqrt1_seed_of(b: u32) -> u32
    recommends
        !sign_bit_set(b),
{
    (RSQRT1_MAGIC - b / 2) as u32
}

/// Computes the fast reciprocal square root's initial guess from the input's
/// bit pattern. Defined for patterns of non-negative inputs, where the
/// subtraction cannot wrap; a reciprocal square root is meaningless for
/// negative inputs anyway.
pub fn rsqrt_seed(b: u32) -> (r: u32)
    requires
        !sign_bit_set(b),
    ensures
        r == rsqrt_seed_of(b),
{
    proof {
        lemma_seed_no_wrap(b);
        assert(b >> 1u32 == b / 2) by (bit_vector);
    }
    RSQRT_MAGIC - (b >> 1u32)
}

/// Computes the higher-precision reciprocal square root's initial guess; only
/// the magic constant differs from the fast variant.
pub fn rsqrt1_seed(b: u32) -> (r: u32)
    requires
        !sign_bit_set(b),
    ensures
        r == rsqrt1_seed_of(b),
{
    proof {
        lemma_seed_no_wrap(b);
        assert(b >> 1u32 == b / 2) by (bit_vector);
    }
    RSQRT1_MAGIC - (b >> 1u32)
}

/// With the sign bit clear, the halved pattern stays below both magic
/// constants, so neither seed subtraction wraps.
proof fn lemma_seed_no_wrap(b: u32)
    requires
        !sign_bit_set(b),
    ensures
        b / 2 < RSQRT1_MAGIC,
        b / 2 < RSQRT_MAGIC,
{
}

} // verus!
