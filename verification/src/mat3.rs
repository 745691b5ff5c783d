//! A dense 3x3 matrix of raw binary32 bit patterns.
//!
//! Field `m_rc` holds the bit pattern of the entry at row `r`, column `c`.
//! The type carries values through the exact steps of the decomposition
//! (column reordering, sign flips, symmetric packing); the arithmetic that
//! fills it happens on the floating-point side and is lossless to round-trip
//! through `f32::to_bits` / `f32::from_bits`.

use vstd::prelude::*;

verus! {

/// A 3x3 matrix of raw binary32 bit patterns, row `r` and column `c` in
/// field `m_rc`.
#[derive(Debug, Clone, Copy, PartialEq, Eq, Structural)]
pub struct Mat3 {
    /// Row 0, column 0.
    pub m_00: u32,
    /// Row 0, column 1.
    pub m_01: u32,
    /// Row 0, column 2.
    pub m_02: u32,
    /// Row 1, column 0.
    pub m_10: u32,
    /// Row 1, column 1.
    pub m_11: u32,
    /// Row 1, column 2.
    pub m_12: u32,
    /// Row 2, column 0.
    pub m_20: u32,
    /// Row 2, column 1.
    pub m_21: u32,
    /// Row 2, column 2.
    pub m_22: u32,
}

impl Mat3 {
    /// Builds the matrix from its nine entries, row by row.
    pub fn new(
        m_00: u32,
        m_01: u32,
        m_02: u32,
        m_10: u32,
        m_11: u32,
        m_12: u32,
        m_20: u32,
        m_21: u32,
        m_22: u32,
    ) -> (r: Mat3)
        ensures
            r == (Mat3 { m_00, m_01, m_02, m_10, m_11, m_12, m_20, m_21, m_22 }),
    {
        Mat3 { m_00, m_01, m_02, m_10, m_11, m_12, m_20, m_21, m_22 }
    }

    /// The entry at row `r`, column `c`.
    pub open spec fn entry(self, r: int, c: int) -> u32 {
        if r == 0 {
            if c == 0 {
                self.m_00
            } else if c == 1 {
                self.m_01
            } else {
                self.m_02
            }
        } else if r == 1 {
            if c == 0 {
                self.m_10
            } else if c == 1 {
                self.m_11
            } else {
                self.m_12
            }
        } else {
            if c == 0 {
                self.m_20
            } else if c == 1 {
                self.m_21
            } else {
                self.m_22
            }
        }
    }

    /// Column `c` of the matrix, top to bottom.
    pub open spec fn col(self, c: int) -> (u32, u32, u32) {
        if c == 0 {
            (self.m_00, self.m_10, self.m_20)
        } else if c == 1 {
            (self.m_01, self.m_11, self.m_21)
        } else {
            (self.m_02, self.m_12, self.m_22)
        }
    }

}

} // verus!
