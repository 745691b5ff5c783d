//! Exact core of a branch-minimal 3x3 singular value decomposition.
//!
//! The decomposition itself runs on 32-bit floats: a fast reciprocal square
//! root, a fixed-sweep Jacobi eigensolver with a quaternion rotation
//! accumulator, a singular-value sorting network, and a three-step Givens QR
//! reduction. Floating-point arithmetic cannot be reasoned about here, so this
//! crate verifies every step of that routine that is *exact* at the level of
//! IEEE-754 bit patterns and leaves the arithmetic to the caller:
//!
//! - the magic-constant bit manipulation that seeds the reciprocal square
//!   root's Newton iterations ([`bits`]);
//! - sign-bit negation and absolute value, which IEEE-754 defines exactly
//!   ([`bits`]);
//! - the packed symmetric 3x3 storage, its derived mirror entries, and the
//!   cyclic slot permutation used between Jacobi rotations ([`jacobi`]);
//! - the bounds-checked component accessor of the quaternion rotation
//!   accumulator ([`quat`]);
//! - the fixed rotation-plane schedule of the Jacobi sweeps ([`jacobi`]);
//! - the fallback rotation constants of the Givens estimator ([`givens`]);
//! - the three-comparator sorting network that reorders singular values
//!   descending while negating one column of each performed swap ([`sort`]).
//!
//! Matrices, rotation parameters and quaternions are carried as their raw bit
//! patterns (`u32`). A caller working in `f32` moves values across the
//! boundary with `f32::to_bits` and `f32::from_bits`, which are lossless, so
//! everything proved here holds verbatim of the floating-point routine.

pub mod bits;
pub mod givens;
pub mod jacobi;
pub mod mat3;
pub mod quat;
pub mod sort;
