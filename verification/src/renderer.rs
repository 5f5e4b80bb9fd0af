//! Engine-facing mesh data.
//!
//! A [`Mesh`] is the flat vertex/index form that the upload path
//! consumes; the decoder produces it from a decoded primitive.

use vstd::prelude::*;

use crate::math::{Vec2Bits, Vec3Bits};

verus! {

/// One vertex of a renderable mesh: position, normal and UV, each
/// component an `f32` bit pattern.
#[derive(Debug, Clone, Copy, PartialEq, Eq, Structural)]
pub struct Vertex {
    /// Position of the vertex.
    pub position: Vec3Bits,
    /// Normal at the vertex.
    pub normal: Vec3Bits,
    /// First-channel texture coordinate.
    pub uv: Vec2Bits,
}

/// Flat renderable geometry: a vertex list plus an index list.
#[derive(Debug, Clone)]
pub struct Mesh {
    /// Vertices of the mesh.
    pub vertices: Vec<Vertex>,
    /// Indices into `vertices`.
    pub indices: Vec<u32>,
}

impl Mesh {
    /// Build a mesh that owns exactly the given vertex and index data.
    pub fn from_data(vertices: Vec<Vertex>, indices: Vec<u32>) -> (r: Mesh)
        ensures
            r.vertices@ == vertices@,
            r.indices@ == indices@,
    {
        Mesh { vertices, indices }
    }
}

} // verus!
