use vstd::prelude::*;

use crate::vertex::Vertex;

verus! {

/// The vertex and triangle-index buffers produced by a meshing pass.
///
/// Indices come in groups of six (two triangles forming one quad), emitted
/// immediately after the four vertices of the quad they reference, so the
/// group for the latest quad always references the last four vertices.
#[derive(Debug, Clone, PartialEq)]
pub struct MeshData {
    pub vertices: Vec<Vertex>,
    pub indices: Vec<i32>,
}

impl MeshData {
    /// An empty mesh: no vertices, no indices.
    pub fn new() -> (r: Self)
        ensures
            r.vertices@ == Seq::<Vertex>::empty(),
            r.indices@ == Seq::<i32>::empty(),
    {
        let vertices: Vec<Vertex> = Vec::new();
        let indices: Vec<i32> = Vec::new();

        proof {
            assert(vertices@ =~= Seq::<Vertex>::empty());
            assert(indices@ =~= Seq::<i32>::empty());
        }

        MeshData { vertices, indices }
    }
}

impl Default for MeshData {
    fn default() -> (r: Self)
        ensures
            r.vertices@ == Seq::<Vertex>::empty(),
            r.indices@ == Seq::<i32>::empty(),
    {
        MeshData::new()
    }
}

} // verus!
