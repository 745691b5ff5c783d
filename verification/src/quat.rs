//! The quaternion rotation accumulator, as raw binary32 bit patterns.
//!
//! The Jacobi sweeps accumulate their rotations into a 4-component
//! quaternion instead of a running 3x3 matrix product. The sweep logic
//! addresses the components by a logical index 0..4 that cycles with the
//! rotation plane, so the accumulator offers a small bounds-checked accessor
//! pair instead of assuming a memory layout: an index outside 0..4 is a
//! programming error and is excluded by contract.

use vstd::prelude::*;

verus! {

/// A quaternion of raw binary32 bit patterns, addressed by logical index:
/// 0, 1, 2, 3 map to x, y, z, w.
#[derive(Debug, Clone, Copy, PartialEq, Eq, Structural)]
pub struct IndexedQuat {
    /// The x component.
    pub x: u32,
    /// The y component.
    pub y: u32,
    /// The z component.
    pub z: u32,
    /// The w component.
    pub w: u32,
}

impl IndexedQuat {
    /// The component selected by logical index `i`.
    pub open spec fn component(self, i: int) -> u32 {
        if i == 0 {
            self.x
        } else if i == 1 {
            self.y
        } else if i == 2 {
            self.z
        } else {
            self.w
        }
    }

    /// The quaternion with component `i` replaced by `v` and the other
    /// three unchanged.
    pub open spec fn with_component(self, i: int, v: u32) -> IndexedQuat {
        if i == 0 {
            IndexedQuat { x: v, ..self }
        } else if i == 1 {
            IndexedQuat { y: v, ..self }
        } else if i == 2 {
            IndexedQuat { z: v, ..self }
        } else {
            IndexedQuat { w: v, ..self }
        }
    }

    /// Builds an accumulator from its four components.
    pub fn new(x: u32, y: u32, z: u32, w: u32) -> (r: IndexedQuat)
        ensures
            r == (IndexedQuat { x, y, z, w }),
    {
        IndexedQuat { x, y, z, w }
    }

    /// The identity rotation (0, 0, 0, 1), the accumulator's starting value:
    /// x, y and z are positive zero and w is the bit pattern of one.
    pub fn identity() -> (r: IndexedQuat)
        ensures
            r == (IndexedQuat { x: 0, y: 0, z: 0, w: 0x3f80_0000 }),
    {
        IndexedQuat { x: 0, y: 0, z: 0, w: 0x3f80_0000 }
    }

    /// Reads the component at logical index `i`. Indices outside 0..4 are a
    /// contract violation of the caller, not a data error, and are excluded.
    pub fn get(&self, i: usize) -> (r: u32)
        requires
            i < 4,
        ensures
            r == self.component(i as int),
    {
        match i {
            0 => self.x,
            1 => self.y,
            2 => self.z,
            _ => self.w,
        }
    }

    /// Replaces the component at logical index `i`, leaving the others
    /// untouched. Indices outside 0..4 are excluded by contract.
    pub fn set(&mut self, i: usize, v: u32)
        requires
            i < 4,
        ensures
            *final(self) == old(self).with_component(i as int, v),
    {
        match i {
            0 => self.x = v,
            1 => self.y = v,
            2 => self.z = v,
            _ => self.w = v,
        }
    }
}

/// Reading back a component just written returns the written value, and
/// writing one component leaves every other component unchanged.
pub proof fn lemma_component_accessor(q: IndexedQuat, i: int, j: int, v: u32)
    requires
        0 <= i < 4,
        0 <= j < 4,
    ensures
        q.with_component(i, v).component(i) == v,
        i != j ==> q.with_component(i, v).component(j) == q.component(j),
{
}

} // verus!
