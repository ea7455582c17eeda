//! Chunk meshing: greedy quad extraction, vertex packing and the
//! invalidation queue that decides which chunks need a new mesh.

pub mod greedy;
pub mod invalidation;
pub mod packing;

use vstd::prelude::*;

use crate::chunk::{ChunkKey, ChunkVoxels};
use packing::PackedMesh;

verus! {

/// One merged rectangle of visible faces on one slice of a chunk.
///
/// `origin` is the voxel of the quad's lower corner; `size` spans the two
/// tangent axes of `axis` (see [`plane_axes`]).
#[derive(Clone, Copy, Debug, PartialEq, Eq)]
pub struct GreedyQuad {
    pub axis: u8,
    pub positive_face: bool,
    pub origin: [u8; 3],
    pub size: [u8; 2],
    pub block_id: u16,
    pub is_skirt: bool,
}

/// A finished mesh for a chunk at a source revision.
#[derive(Debug)]
pub struct MeshingJobResult {
    pub key: ChunkKey,
    pub mesh: PackedMesh,
    pub source_revision: u64,
}

/// The six neighbouring chunks whose border voxels are visible from this chunk.
#[derive(Clone, Copy)]
pub struct ChunkNeighborSet<'a> {
    pub px: Option<&'a ChunkVoxels>,
    pub nx: Option<&'a ChunkVoxels>,
    pub py: Option<&'a ChunkVoxels>,
    pub ny: Option<&'a ChunkVoxels>,
    pub pz: Option<&'a ChunkVoxels>,
    pub nz: Option<&'a ChunkVoxels>,
    pub finer_neighbor_face_mask: u8,
}

impl<'a> Default for ChunkNeighborSet<'a> {
    /// No neighbours loaded.
    fn default() -> (n: ChunkNeighborSet<'a>)
        ensures
            n.px.is_none() && n.nx.is_none() && n.py.is_none() && n.ny.is_none()
                && n.pz.is_none() && n.nz.is_none() && n.finer_neighbor_face_mask == 0,
    {
        ChunkNeighborSet { px: None, nx: None, py: None, ny: None, pz: None, nz: None, finer_neighbor_face_mask: 0 }
    }
}

/// First tangent axis of a face axis: Y for X faces, X otherwise.
pub open spec fn u_axis(axis: int) -> int {
    if axis == 0 {
        1
    } else {
        0
    }
}

/// Second tangent axis of a face axis: Z for X and Y faces, Y for Z faces.
pub open spec fn v_axis(axis: int) -> int {
    if axis == 2 {
        1
    } else {
        2
    }
}

/// The two tangent axes `(u, v)` of a face axis.
pub fn plane_axes(axis: u8) -> (r: (usize, usize))
    requires
        axis < 3,
    ensures
        r.0 == u_axis(axis as int),
        r.1 == v_axis(axis as int),
{
    if axis == 0 {
        (1, 2)
    } else if axis == 1 {
        (0, 2)
    } else {
        (0, 1)
    }
}

} // verus!
