//! The singular-value sorting network: three pairwise conditional swaps that
//! reorder the columns of the working matrix and of the eigenvector matrix
//! by descending squared column norm, negating one column of every swap
//! performed so the reordering stays a rotation (a signed permutation of
//! determinant one).
//!
//! The squared norms themselves are floating-point sums of squares and are
//! computed by the caller; they arrive here as raw bit patterns. On
//! non-negative finite binary32 values the unsigned order of the bit
//! patterns coincides with the numeric order, so comparing the patterns as
//! `u32` decides exactly the comparisons the network needs. Everything the
//! network then does — swapping columns, flipping sign bits — is exact and
//! is verified here, entry for entry.

use vstd::prelude::*;

use crate::bits::negated;
use crate::mat3::Mat3;

verus! {

/// Swaps the two referenced values when `c` holds; otherwise leaves both
/// unchanged.
pub fn cond_swap(c: bool, x: &mut u32, y: &mut u32)
    ensures
        c ==> *final(x) == *old(y) && *final(y) == *old(x),
        !c ==> *final(x) == *old(x) && *final(y) == *old(y),
{
    let z = *x;
    if c {
        *x = *y;
        *y = z;
    }
}

/// Swaps the two referenced values and negates the one moved into `y` when
/// `c` holds; otherwise leaves both unchanged. The negation is the exact
/// sign-bit flip of the binary32 pattern.
pub fn cond_neg_swap(c: bool, x: &mut u32, y: &mut u32)
    ensures
        c ==> *final(x) == *old(y) && *final(y) == negated(*old(x)),
        !c ==> *final(x) == *old(x) && *final(y) == *old(y),
{
    let z = crate::bits::negate_bits(*x);
    if c {
        *x = *y;
        *y = z;
    }
}

/// Columns 0 and 1 exchanged, the one moved into column 1 negated.
pub open spec fn neg_swap_cols_01(m: Mat3) -> Mat3 {
    Mat3 {
        m_00: m.m_01,
        m_01: negated(m.m_00),
        m_10: m.m_11,
        m_11: negated(m.m_10),
        m_20: m.m_21,
        m_21: negated(m.m_20),
        ..m
    }
}

/// Columns 0 and 2 exchanged, the one moved into column 2 negated.
pub open spec fn neg_swap_cols_02(m: Mat3) -> Mat3 {
    Mat3 {
        m_00: m.m_02,
        m_02: negated(m.m_00),
        m_10: m.m_12,
        m_12: negated(m.m_10),
        m_20: m.m_22,
        m_22: negated(m.m_20),
        ..m
    }
}

/// Columns 1 and 2 exchanged, the one moved into column 2 negated.
pub open spec fn neg_swap_cols_12(m: Mat3) -> Mat3 {
    Mat3 {
        m_01: m.m_02,
        m_02: negated(m.m_01),
        m_11: m.m_12,
        m_12: negated(m.m_11),
        m_21: m.m_22,
        m_22: negated(m.m_21),
        ..m
    }
}

/// The first comparator of the network, on columns 0 and 1. A network
/// state is the working matrix, the eigenvector matrix, and the three
/// squared-norm keys, in column order.
pub open spec fn sort_pass_01(t: (Mat3, Mat3, (u32, u32, u32))) -> (Mat3, Mat3, (u32, u32, u32)) {
    if t.2.0 < t.2.1 {
        (neg_swap_cols_01(t.0), neg_swap_cols_01(t.1), (t.2.1, t.2.0, t.2.2))
    } else {
        t
    }
}

/// The second comparator of the network, on columns 0 and 2.
pub open spec fn sort_pass_02(t: (Mat3, Mat3, (u32, u32, u32))) -> (Mat3, Mat3, (u32, u32, u32)) {
    if t.2.0 < t.2.2 {
        (neg_swap_cols_02(t.0), neg_swap_cols_02(t.1), (t.2.2, t.2.1, t.2.0))
    } else {
        t
    }
}

/// The third comparator of the network, on columns 1 and 2.
pub open spec fn sort_pass_12(t: (Mat3, Mat3, (u32, u32, u32))) -> (Mat3, Mat3, (u32, u32, u32)) {
    if t.2.1 < t.2.2 {
        (neg_swap_cols_12(t.0), neg_swap_cols_12(t.1), (t.2.0, t.2.2, t.2.1))
    } else {
        t
    }
}

/// The full network: the three comparators on the column pairs (0,1), then
/// (0,2), then (1,2).
pub open spec fn sorted_by_keys(b: Mat3, v: Mat3, k: (u32, u32, u32)) -> (
    Mat3,
    Mat3,
    (u32, u32, u32),
) {
    sort_pass_12(sort_pass_02(sort_pass_01((b, v, k))))
}

/// Reorders the columns of `b` and of `v` in place so that the keys —
/// the squared column norms, as bit patterns — are in descending unsigned
/// order, negating one column of each swap performed. Both matrices receive
/// exactly the same signed column permutation, and the result is pinned
/// entry for entry as a function of the arguments alone, so two calls on
/// equal bit patterns leave equal bit patterns.
pub fn sort_singular_values(b: &mut Mat3, v: &mut Mat3, rho0: u32, rho1: u32, rho2: u32)
    ensures
        *final(b) == sorted_by_keys(*old(b), *old(v), (rho0, rho1, rho2)).0,
        *final(v) == sorted_by_keys(*old(b), *old(v), (rho0, rho1, rho2)).1,
{
    let mut k0 = rho0;
    let mut k1 = rho1;
    let mut k2 = rho2;

    let c = k0 < k1;
    cond_neg_swap(c, &mut b.m_00, &mut b.m_01);
    cond_neg_swap(c, &mut v.m_00, &mut v.m_01);
    cond_neg_swap(c, &mut b.m_10, &mut b.m_11);
    cond_neg_swap(c, &mut v.m_10, &mut v.m_11);
    cond_neg_swap(c, &mut b.m_20, &mut b.m_21);
    cond_neg_swap(c, &mut v.m_20, &mut v.m_21);
    cond_swap(c, &mut k0, &mut k1);

    assert((*b, *v, (k0, k1, k2)) == sort_pass_01((*old(b), *old(v), (rho0, rho1, rho2))));

    let c = k0 < k2;
    cond_neg_swap(c, &mut b.m_00, &mut b.m_02);
    cond_neg_swap(c, &mut v.m_00, &mut v.m_02);
    cond_neg_swap(c, &mut b.m_10, &mut b.m_12);
    cond_neg_swap(c, &mut v.m_10, &mut v.m_12);
    cond_neg_swap(c, &mut b.m_20, &mut b.m_22);
    cond_neg_swap(c, &mut v.m_20, &mut v.m_22);
    cond_swap(c, &mut k0, &mut k2);

    assert((*b, *v, (k0, k1, k2)) == sort_pass_02(sort_pass_01(
        (*old(b), *old(v), (rho0, rho1, rho2)),
    )));

    let c = k1 < k2;
    cond_neg_swap(c, &mut b.m_01, &mut b.m_02);
    cond_neg_swap(c, &mut v.m_01, &mut v.m_02);
    cond_neg_swap(c, &mut b.m_11, &mut b.m_12);
    cond_neg_swap(c, &mut v.m_11, &mut v.m_12);
    cond_neg_swap(c, &mut b.m_21, &mut b.m_22);
    cond_neg_swap(c, &mut v.m_21, &mut v.m_22);
}

/// The keys come out of the network in descending order: whatever the three
/// squared norms were, the first sorted key is at least the second, and the
/// second at least the third.
pub proof fn lemma_sorted_keys_nonincreasing(b: Mat3, v: Mat3, k: (u32, u32, u32))
    ensures
        sorted_by_keys(b, v, k).2.0 >= sorted_by_keys(b, v, k).2.1,
        sorted_by_keys(b, v, k).2.1 >= sorted_by_keys(b, v, k).2.2,
{
}

/// The second triple lists the same three values as the first, in some
/// order.
pub open spec fn is_reordering3(a: (u32, u32, u32), b: (u32, u32, u32)) -> bool {
    b == (a.0, a.1, a.2) || b == (a.0, a.2, a.1) || b == (a.1, a.0, a.2) || b == (
        a.1,
        a.2,
        a.0,
    ) || b == (a.2, a.0, a.1) || b == (a.2, a.1, a.0)
}

/// The network loses no key: the sorted keys are a reordering of the three
/// that went in.
pub proof fn lemma_sorted_keys_reordering(b: Mat3, v: Mat3, k: (u32, u32, u32))
    ensures
        is_reordering3(k, sorted_by_keys(b, v, k).2),
{
}

/// Keys already in descending order are a fixed point: the comparisons are
/// strict, so no swap fires and both matrices come back bit-identical. In
/// particular an already diagonal working matrix with descending norms —
/// the identity among them — is left untouched.
pub proof fn lemma_sort_fixed_point(b: Mat3, v: Mat3, k: (u32, u32, u32))
    requires
        k.0 >= k.1,
        k.1 >= k.2,
    ensures
        sorted_by_keys(b, v, k) == (b, v, k),
{
}

/// A column with every entry's sign bit flipped.
pub open spec fn neg_col(c: (u32, u32, u32)) -> (u32, u32, u32) {
    (negated(c.0), negated(c.1), negated(c.2))
}

/// Column `j` of `m`, negated when `s` holds.
pub open spec fn signed_col(m: Mat3, j: int, s: bool) -> (u32, u32, u32) {
    if s {
        neg_col(m.col(j))
    } else {
        m.col(j)
    }
}

/// For each output column slot, the source column index and whether the
/// column arrives negated, as decided by the three key comparisons. Each
/// comparator that fires moves one source into its lower slot unchanged and
/// the other into its upper slot with one more sign flip.
pub open spec fn sort_tracking(k: (u32, u32, u32)) -> ((int, bool), (int, bool), (int, bool)) {
    let t0 = ((0int, false), (1int, false), (2int, false));
    let t1 = if k.0 < k.1 {
        (t0.1, (t0.0.0, !t0.0.1), t0.2)
    } else {
        t0
    };
    let k1 = if k.0 < k.1 {
        (k.1, k.0, k.2)
    } else {
        k
    };
    let t2 = if k1.0 < k1.2 {
        (t1.2, t1.1, (t1.0.0, !t1.0.1))
    } else {
        t1
    };
    let k2 = if k1.0 < k1.2 {
        (k1.2, k1.1, k1.0)
    } else {
        k1
    };
    if k2.1 < k2.2 {
        (t2.0, t2.2, (t2.1.0, !t2.1.1))
    } else {
        t2
    }
}

/// The key at column index `i`.
pub open spec fn key_at(k: (u32, u32, u32), i: int) -> u32 {
    if i == 0 {
        k.0
    } else if i == 1 {
        k.1
    } else {
        k.2
    }
}

/// Flipping a sign bit twice restores the pattern, so a column swapped by
/// two comparators in turn comes out equal to its source again.
proof fn lemma_negation_cancels()
    by (bit_vector)
    ensures
        forall|x: u32| #[trigger] (negated(negated(x))) == x,
{
}

/// The network applies one signed column permutation, the same to both
/// matrices: [`sort_tracking`] names, for every output slot, a source
/// column index and a sign, the indices are a permutation of 0..3, output
/// slot `j` of each matrix holds exactly that source column of that matrix
/// with that sign, and the sorted key of slot `j` is the source column's
/// key. Both matrices being reordered by the same signed permutation is
/// what lets the reordering preserve orthogonality.
pub proof fn lemma_sort_signed_permutation(b: Mat3, v: Mat3, k: (u32, u32, u32))
    ensures
        0 <= sort_tracking(k).0.0 < 3,
        0 <= sort_tracking(k).1.0 < 3,
        0 <= sort_tracking(k).2.0 < 3,
        sort_tracking(k).0.0 != sort_tracking(k).1.0,
        sort_tracking(k).0.0 != sort_tracking(k).2.0,
        sort_tracking(k).1.0 != sort_tracking(k).2.0,
        sorted_by_keys(b, v, k).0.col(0) == signed_col(b, sort_tracking(k).0.0, sort_tracking(k).0.1),
        sorted_by_keys(b, v, k).0.col(1) == signed_col(b, sort_tracking(k).1.0, sort_tracking(k).1.1),
        sorted_by_keys(b, v, k).0.col(2) == signed_col(b, sort_tracking(k).2.0, sort_tracking(k).2.1),
        sorted_by_keys(b, v, k).1.col(0) == signed_col(v, sort_tracking(k).0.0, sort_tracking(k).0.1),
        sorted_by_keys(b, v, k).1.col(1) == signed_col(v, sort_tracking(k).1.0, sort_tracking(k).1.1),
        sorted_by_keys(b, v, k).1.col(2) == signed_col(v, sort_tracking(k).2.0, sort_tracking(k).2.1),
        sorted_by_keys(b, v, k).2.0 == key_at(k, sort_tracking(k).0.0),
        sorted_by_keys(b, v, k).2.1 == key_at(k, sort_tracking(k).1.0),
        sorted_by_keys(b, v, k).2.2 == key_at(k, sort_tracking(k).2.0),
{
    lemma_negation_cancels();
}

} // verus!
