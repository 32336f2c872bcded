//! What the renderer draws: vertices and normals, and the meshes built from
//! chunks of blocks.

use vstd::prelude::*;

pub mod chunk;
pub mod surface;

verus! {

/// A mesh vertex, in block units relative to the chunk's origin. A block at
/// local coordinate 255 has corners at 256, so each component is wider than
/// a block coordinate.
#[derive(Copy, Clone, PartialEq, Eq, Debug)]
pub struct Vertex {
    pub position: (u16, u16, u16),
}

/// The normal of a mesh vertex: one of the eight diagonals of the cube.
#[derive(Copy, Clone, PartialEq, Eq, Debug)]
pub struct Normal {
    pub normal: (i8, i8, i8),
}

} // verus!
