//! The Jacobi eigensolver's exact machinery: packed symmetric storage, the
//! cyclic slot permutation between rotations, and the fixed sweep schedule.
//!
//! The eigensolver diagonalizes a symmetric 3x3 matrix by a fixed number of
//! sweeps, each applying one estimated rotation per rotation plane. The
//! rotation arithmetic is floating point and stays with the caller; what is
//! exact, and verified here, is the storage layout (six independent entries,
//! the mirrored three derived on demand), the cyclic permutation of the six
//! slots that lets every rotation plane reuse the same (0,0)/(1,1)/(1,0)
//! addressing, and the schedule of rotation planes itself.

use vstd::prelude::*;

use crate::mat3::Mat3;

verus! {

/// Number of full sweeps the Jacobi eigensolver runs. Each sweep applies one
/// rotation per plane, and the count is fixed: cost and output depend only
/// on the input, never on how close to diagonal the matrix has become.
pub const JACOBI_STEPS: u32 = 12;

/// A symmetric 3x3 matrix packed into its six independent entries, as raw
/// binary32 bit patterns. Field `m_rc` holds row `r`, column `c` of the
/// lower triangle; the upper-triangle entries are never stored, only derived
/// by mirroring.
#[derive(Debug, Clone, Copy, PartialEq, Eq, Structural)]
pub struct Symmetric3x3 {
    /// Row 0, column 0: the first diagonal entry.
    pub m_00: u32,
    /// Row 1, column 0; by symmetry also row 0, column 1.
    pub m_10: u32,
    /// Row 1, column 1: the second diagonal entry.
    pub m_11: u32,
    /// Row 2, column 0; by symmetry also row 0, column 2.
    pub m_20: u32,
    /// Row 2, column 1; by symmetry also row 1, column 2.
    pub m_21: u32,
    /// Row 2, column 2: the third diagonal entry.
    pub m_22: u32,
}

impl Symmetric3x3 {
    /// The entry at row `r`, column `c` of the full matrix the packed value
    /// stands for: stored entries where `r >= c`, mirrored ones elsewhere.
    pub open spec fn full_entry(self, r: int, c: int) -> u32 {
        let (lo, hi) = if r >= c {
            (c, r)
        } else {
            (r, c)
        };
        if hi == 0 {
            self.m_00
        } else if hi == 1 {
            if lo == 0 {
                self.m_10
            } else {
                self.m_11
            }
        } else {
            if lo == 0 {
                self.m_20
            } else if lo == 1 {
                self.m_21
            } else {
                self.m_22
            }
        }
    }

    /// The packed matrix after one cyclic permutation of the six slots, the
    /// rearrangement applied after each Jacobi rotation so that the next
    /// rotation plane can reuse the same (0,0)/(1,1)/(1,0) addressing. The
    /// diagonal entries cycle one way and the off-diagonal entries the
    /// other.
    pub open spec fn cycled(self) -> Symmetric3x3 {
        Symmetric3x3 {
            m_00: self.m_11,
            m_10: self.m_21,
            m_11: self.m_22,
            m_20: self.m_10,
            m_21: self.m_20,
            m_22: self.m_00,
        }
    }

    /// Packs six independent entries: the diagonal and the lower triangle,
    /// in the order (0,0), (1,0), (1,1), (2,0), (2,1), (2,2).
    pub fn new(a11: u32, a21: u32, a22: u32, a31: u32, a32: u32, a33: u32) -> (r: Symmetric3x3)
        ensures
            r == (Symmetric3x3 {
                m_00: a11,
                m_10: a21,
                m_11: a22,
                m_20: a31,
                m_21: a32,
                m_22: a33,
            }),
    {
        Symmetric3x3 { m_00: a11, m_10: a21, m_11: a22, m_20: a31, m_21: a32, m_22: a33 }
    }

    /// What packing a dense matrix reads: the diagonal, the (1,0) entry
    /// from the upper triangle, and the remaining two off-diagonal entries
    /// from the lower triangle.
    pub open spec fn packed_from(mat: Mat3) -> Symmetric3x3 {
        Symmetric3x3 {
            m_00: mat.m_00,
            m_10: mat.m_01,
            m_11: mat.m_11,
            m_20: mat.m_20,
            m_21: mat.m_21,
            m_22: mat.m_22,
        }
    }

    /// Packs a dense matrix assumed symmetric, reading exactly the entries
    /// [`Symmetric3x3::packed_from`] names.
    pub fn from_mat3x3(mat: &Mat3) -> (r: Symmetric3x3)
        ensures
            r == Symmetric3x3::packed_from(*mat),
    {
        Symmetric3x3 {
            m_00: mat.m_00,
            m_10: mat.m_01,
            m_11: mat.m_11,
            m_20: mat.m_20,
            m_21: mat.m_21,
            m_22: mat.m_22,
        }
    }

    /// Applies the cyclic slot permutation in place.
    pub fn cycle(&mut self)
        ensures
            *final(self) == old(self).cycled(),
    {
        let next = Symmetric3x3 {
            m_00: self.m_11,
            m_10: self.m_21,
            m_11: self.m_22,
            m_20: self.m_10,
            m_21: self.m_20,
            m_22: self.m_00,
        };
        *self = next;
    }
}

/// The packed storage always stands for a symmetric matrix: the full entry
/// at (r, c) equals the one at (c, r).
pub proof fn lemma_full_entry_symmetric(s: Symmetric3x3, r: int, c: int)
    ensures
        s.full_entry(r, c) == s.full_entry(c, r),
{
}

/// Packing is lossless on symmetric input: when the dense matrix really is
/// symmetric, entry for entry, every full entry of the packed form equals
/// the dense entry it stands for.
pub proof fn lemma_pack_symmetric_exact(m: Mat3)
    requires
        m.m_01 == m.m_10,
        m.m_02 == m.m_20,
        m.m_12 == m.m_21,
    ensures
        forall|r: int, c: int|
            0 <= r < 3 && 0 <= c < 3 ==> Symmetric3x3::packed_from(m).full_entry(r, c)
                == m.entry(r, c),
{
}

/// The slot permutation is a rotation of period three: after the three
/// rotation planes of one sweep, every entry is back in its own slot.
pub proof fn lemma_cycle_period_three(s: Symmetric3x3)
    ensures
        s.cycled().cycled().cycled() == s,
{
}

/// The rotation planes of one Jacobi sweep, in order: the ordered triple
/// `(x, y, z)` returned for steps 0, 1, 2 is (0,1,2), (1,2,0), (2,0,1),
/// targeting the planes (0,1), (1,2), (0,2).
pub fn axis_triple(step: usize) -> (r: (usize, usize, usize))
    requires
        step < 3,
    ensures
        step == 0 ==> r == (0usize, 1usize, 2usize),
        step == 1 ==> r == (1usize, 2usize, 0usize),
        step == 2 ==> r == (2usize, 0usize, 1usize),
{
    match step {
        0 => (0, 1, 2),
        1 => (1, 2, 0),
        _ => (2, 0, 1),
    }
}

} // verus!
