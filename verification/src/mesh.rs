//! What a mesh is checked for before upload. The vertex data itself is
//! floating-point and stays with the caller; the warnings need only counts.

use vstd::prelude::*;

verus! {

/// Something suspicious about a mesh that is reported but does not stop it
/// from being built.
#[derive(Copy, Clone, Debug, PartialEq, Eq, Structural)]
pub enum MeshWarning {
    /// The mesh has no vertices.
    NoVertices,
    /// The mesh has no indices.
    NoIndices,
}

/// The warnings for a mesh with `vertex_count` vertices and `index_count`
/// indices, in the order they are reported.
pub fn mesh_warnings(vertex_count: usize, index_count: usize) -> (r: Vec<MeshWarning>)
    ensures
        r@ == (if vertex_count == 0 { seq![MeshWarning::NoVertices] } else { Seq::empty() })
            + (if index_count == 0 { seq![MeshWarning::NoIndices] } else { Seq::empty() }),
{
    let mut r: Vec<MeshWarning> = Vec::new();
    if vertex_count == 0 {
        r.push(MeshWarning::NoVertices);
    }
    if index_count == 0 {
        r.push(MeshWarning::NoIndices);
    }
    proof {
        if vertex_count == 0 && index_count == 0 {
            assert(r@ =~= seq![MeshWarning::NoVertices] + seq![MeshWarning::NoIndices]);
        } else if vertex_count == 0 {
            assert(r@ =~= seq![MeshWarning::NoVertices] + Seq::<MeshWarning>::empty());
        } else if index_count == 0 {
            assert(r@ =~= Seq::<MeshWarning>::empty() + seq![MeshWarning::NoIndices]);
        } else {
            assert(r@ =~= Seq::<MeshWarning>::empty() + Seq::<MeshWarning>::empty());
        }
    }
    r
}

} // verus!
