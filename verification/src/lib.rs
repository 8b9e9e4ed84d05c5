//! A software 3D renderer in fixed-point arithmetic: camera model, vertex
//! transform pipeline, triangle rasterizer with z-buffering, procedural
//! surface shaders, and a ray-sphere intersection for the sky background.

pub mod camera;
pub mod color;
pub mod fixed;
pub mod framebuffer;
pub mod mat;
pub mod noise;
pub mod pipeline;
pub mod ray_intersect;
pub mod shaders;
pub mod texture;
pub mod triangle;
pub mod vertex;
pub mod fragment;
pub mod vector;

use vstd::prelude::*;

verus! {

} // verus!
