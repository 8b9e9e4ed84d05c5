//! Vertices: model-space attributes set by the mesh source, plus the
//! screen-space position and remapped normal that the transform stage fills
//! in. The transform stage returns a new vertex; inputs are never mutated.

use vstd::prelude::*;
use crate::vector::Vec3;
use crate::color::Color;
use crate::mat::NORMAL_LIMIT;

verus! {

/// Bound on model-space vertex coordinates (256 units).
pub const POS_LIMIT: i64 = 0x100_0000;

/// Saturation bound for screen-space coordinates (16384 pixels).
pub const SCREEN_SAT: i64 = 0x4000_0000;

/// A pair of texture coordinates.
#[derive(Clone, Copy, PartialEq, Eq, Structural, Debug)]
pub struct Vec2 {
    pub u: i64,
    pub v: i64,
}

/// A vertex: model-space position, normal and texture coordinates, an
/// optional base color, and the two pipeline-computed fields.
#[derive(Clone, Copy, PartialEq, Eq, Structural, Debug)]
pub struct Vertex {
    pub position: Vec3,
    pub normal: Vec3,
    pub tex_coords: Vec2,
    pub color: Option<Color>,
    pub transformed_position: Vec3,
    pub transformed_normal: Vec3,
}

impl Vertex {
    /// Well-formedness: all coordinate fields within their bounds.
    pub open spec fn wf(self) -> bool {
        &&& self.position.bounded(POS_LIMIT as int)
        &&& self.normal.bounded(NORMAL_LIMIT as int)
        &&& self.transformed_position.bounded(SCREEN_SAT as int)
        &&& self.transformed_normal.bounded(NORMAL_LIMIT as int)
    }

    /// A fresh vertex from its model-space attributes; the pipeline-computed
    /// fields start at zero.
    pub fn new(position: Vec3, normal: Vec3, tex_coords: Vec2) -> (v: Vertex)
        requires
            position.bounded(POS_LIMIT as int),
            normal.bounded(NORMAL_LIMIT as int),
        ensures
            v == (Vertex {
                position,
                normal,
                tex_coords,
                color: None::<Color>,
                transformed_position: Vec3 { x: 0i64, y: 0i64, z: 0i64 },
                transformed_normal: Vec3 { x: 0i64, y: 0i64, z: 0i64 },
            }),
            v.wf(),
    {
        Vertex {
            position,
            normal,
            tex_coords,
            color: None,
            transformed_position: Vec3 { x: 0, y: 0, z: 0 },
            transformed_normal: Vec3 { x: 0, y: 0, z: 0 },
        }
    }
}

} // verus!
