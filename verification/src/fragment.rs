//! Fragments: the per-pixel values a rasterized triangle hands to the
//! shading stage. Produced and consumed within one rasterization call.

use vstd::prelude::*;
use crate::fixed::FX_ONE;
use crate::vector::Vec3;
use crate::vertex::{POS_LIMIT, SCREEN_SAT};
use crate::mat::NORMAL_LIMIT;

verus! {

/// A fragment: an integer pixel coordinate, an interpolated depth, the
/// interpolated normal, the interpolated object-space position (the stable
/// noise coordinate), and a light intensity.
#[derive(Clone, Copy, PartialEq, Eq, Structural, Debug)]
pub struct Fragment {
    pub x: usize,
    pub y: usize,
    pub depth: i64,
    pub normal: Vec3,
    pub vertex_position: Vec3,
    pub intensity: i64,
}

impl Fragment {
    /// Well-formedness: bounded depth, normal and position, and an intensity
    /// within [0, 1].
    pub open spec fn wf(self) -> bool {
        &&& self.x <= 16384
        &&& self.y <= 16384
        &&& -SCREEN_SAT <= self.depth <= SCREEN_SAT
        &&& self.normal.bounded(NORMAL_LIMIT as int)
        &&& self.vertex_position.bounded(POS_LIMIT as int)
        &&& 0 <= self.intensity <= FX_ONE
    }

    /// A fragment from its parts.
    pub fn new(x: usize, y: usize, depth: i64, normal: Vec3, vertex_position: Vec3,
        intensity: i64) -> (f: Fragment)
        requires
            x <= 16384,
            y <= 16384,
            -SCREEN_SAT <= depth <= SCREEN_SAT,
            normal.bounded(NORMAL_LIMIT as int),
            vertex_position.bounded(POS_LIMIT as int),
            0 <= intensity <= FX_ONE,
        ensures
            f == (Fragment { x, y, depth, normal, vertex_position, intensity }),
            f.wf(),
    {
        Fragment { x, y, depth, normal, vertex_position, intensity }
    }
}

} // verus!
