//! Givens rotation parameters, as raw binary32 bit patterns.
//!
//! A Givens rotation is described by a cosine-like and a sine-like value.
//! The pair is not required to be unit length at construction; consumers
//! normalize it with the reciprocal square root. When the rotation estimator
//! rejects a candidate (the off-diagonal entry is too small, or normalizing
//! produced a NaN), it falls back to the fixed safe pair held by
//! [`Givens::default`]: cos(pi/8) and sin(pi/8), a non-degenerate 22.5
//! degree rotation that can never introduce a NaN.

use vstd::prelude::*;

use crate::bits::{is_finite_pattern, is_nan_pattern};

verus! {

/// Bit pattern of the fallback cosine-like value, cos(pi/8) rounded to
/// binary32.
pub const CSTAR_BITS: u32 = 0x3f6c_835e;

/// Bit pattern of the fallback sine-like value, sin(pi/8) rounded to
/// binary32.
pub const SSTAR_BITS: u32 = 0x3ec3_ef15;

/// A pair of rotation parameters: a cosine-like and a sine-like bit pattern.
#[derive(Debug, Clone, Copy, PartialEq, Eq, Structural)]
pub struct Givens {
    /// The cosine-like parameter of the rotation.
    pub ch: u32,
    /// The sine-like parameter of the rotation.
    pub sh: u32,
}

impl Givens {
    /// Builds a rotation-parameter pair from its two components.
    pub fn new(ch: u32, sh: u32) -> (r: Givens)
        ensures
            r == (Givens { ch, sh }),
    {
        Givens { ch, sh }
    }

    /// The fixed safe fallback rotation: a 22.5 degree rotation whose
    /// parameters are ordinary finite values, so a rejected or degenerate
    /// candidate is always replaced by something that cannot produce a NaN.
    pub fn default() -> (r: Givens)
        ensures
            r == (Givens { ch: CSTAR_BITS, sh: SSTAR_BITS }),
    {
        Givens { ch: CSTAR_BITS, sh: SSTAR_BITS }
    }
}

/// The fallback rotation is safe: both of its parameters are finite bit
/// patterns, in particular neither is a NaN, so replacing a degenerate
/// candidate by the fallback can never introduce a NaN into the estimated
/// rotation.
pub proof fn lemma_fallback_finite()
    ensures
        is_finite_pattern(CSTAR_BITS),
        is_finite_pattern(SSTAR_BITS),
        !is_nan_pattern(CSTAR_BITS),
        !is_nan_pattern(SSTAR_BITS),
{
    assert(0x3f6c_835eu32 & 0x7f80_0000 != 0x7f80_0000) by (bit_vector);
    assert(0x3ec3_ef15u32 & 0x7f80_0000 != 0x7f80_0000) by (bit_vector);
}

} // verus!
