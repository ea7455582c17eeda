//! Vertex packing of greedy quads and meshlet index flattening.

use std::collections::HashMap;

use vstd::prelude::*;

use super::{plane_axes, u_axis, v_axis, GreedyQuad};

verus! {

/// One vertex in 8 bytes.
///
/// word0: x(7) | y(7) | z(7) | face(3) | ao(2) | unused(5);
/// word1: block_id(16) | u(8) | v(8).
#[derive(Clone, Copy, Debug, PartialEq, Eq)]
pub struct PackedVertex(pub [u32; 2]);

/// A chunk mesh: packed vertices, triangle indices and the voxel-space
/// bounding box of its quads.
#[derive(Debug)]
pub struct PackedMesh {
    pub vertices: Vec<PackedVertex>,
    pub indices: Vec<u32>,
    pub quad_count: u32,
    pub aabb_min: [i32; 3],
    pub aabb_max: [i32; 3],
}

/// First vertex word.
pub open spec fn word0(x: u8, y: u8, z: u8, face: u8, ao: u8) -> u32 {
    (x as u32) | ((y as u32) << 7u32) | ((z as u32) << 14u32) | ((face as u32) << 21u32) | (((ao & 3u8)
        as u32) << 24u32)
}

/// Second vertex word.
pub open spec fn word1(block_id: u16, u: u8, v: u8) -> u32 {
    (block_id as u32) | ((u as u32) << 16u32) | ((v as u32) << 24u32)
}

pub open spec fn packed_vertex(xyz: [u8; 3], face: u8, block_id: u16, uv: [u8; 2], ao: u8) -> PackedVertex {
    PackedVertex([word0(xyz[0], xyz[1], xyz[2], face, ao), word1(block_id, uv[0], uv[1])])
}

pub fn pack_vertex(local_xyz: [u8; 3], face: u8, block_id: u16, uv_local: [u8; 2], ao: u8) -> (v: PackedVertex)
    ensures
        v == packed_vertex(local_xyz, face, block_id, uv_local, ao),
{
    let word0 = (local_xyz[0] as u32) | ((local_xyz[1] as u32) << 7u32) | ((local_xyz[2] as u32) << 14u32)
        | ((face as u32) << 21u32) | (((ao & 3u8) as u32) << 24u32);
    let word1 = (block_id as u32) | ((uv_local[0] as u32) << 16u32) | ((uv_local[1] as u32) << 24u32);
    PackedVertex([word0, word1])
}

/// Fields decoded back out of a vertex's first word.
pub open spec fn unpacked_position(v: PackedVertex) -> (u32, u32, u32) {
    (v.0[0] & 0x7F, (v.0[0] >> 7u32) & 0x7F, (v.0[0] >> 14u32) & 0x7F)
}

/// The 7-bit x/y/z position stored in a packed vertex.
pub fn unpack_position(v: &PackedVertex) -> (p: [u32; 3])
    ensures
        p@ == seq![unpacked_position(*v).0, unpacked_position(*v).1, unpacked_position(*v).2],
{
    let word0 = v.0[0];
    let p = [word0 & 0x7F, (word0 >> 7u32) & 0x7F, (word0 >> 14u32) & 0x7F];
    assert(p@ =~= seq![p[0], p[1], p[2]]);
    p
}

/// Packing keeps every field recoverable: position, face and AO come back
/// out of word0, and block id and UV out of word1, whenever each value fits
/// its bit field.
pub proof fn law_pack_vertex_roundtrip(x: u8, y: u8, z: u8, face: u8, ao: u8, block_id: u16, u: u8, v: u8)
    requires
        x < 128,
        y < 128,
        z < 128,
        face < 8,
    ensures
        word0(x, y, z, face, ao) & 0x7F == x as u32,
        (word0(x, y, z, face, ao) >> 7u32) & 0x7F == y as u32,
        (word0(x, y, z, face, ao) >> 14u32) & 0x7F == z as u32,
        (word0(x, y, z, face, ao) >> 21u32) & 0x7 == face as u32,
        (word0(x, y, z, face, ao) >> 24u32) & 0x3 == (ao & 3u8) as u32,
        word1(block_id, u, v) & 0xFFFF == block_id as u32,
        (word1(block_id, u, v) >> 16u32) & 0xFF == u as u32,
        word1(block_id, u, v) >> 24u32 == v as u32,
{
    let xx = x as u32;
    let yy = y as u32;
    let zz = z as u32;
    let ff = face as u32;
    let aa = (ao & 3u8) as u32;
    let bb = block_id as u32;
    let uu = u as u32;
    let vv = v as u32;
    assert(aa < 4) by (bit_vector)
        requires aa == (ao & 3u8) as u32;
    assert({
        let w = xx | (yy << 7u32) | (zz << 14u32) | (ff << 21u32) | (aa << 24u32);
        &&& w & 0x7F == xx
        &&& (w >> 7u32) & 0x7F == yy
        &&& (w >> 14u32) & 0x7F == zz
        &&& (w >> 21u32) & 0x7 == ff
        &&& (w >> 24u32) & 0x3 == aa
    }) by (bit_vector)
        requires xx < 128, yy < 128, zz < 128, ff < 8, aa < 4;
    assert({
        let w = bb | (uu << 16u32) | (vv << 24u32);
        &&& w & 0xFFFF == bb
        &&& (w >> 16u32) & 0xFF == uu
        &&& w >> 24u32 == vv
    }) by (bit_vector)
        requires bb < 65536, uu < 256, vv < 256;
}

/// Face index 0..6: +X, -X, +Y, -Y, +Z, -Z.
pub open spec fn face_of(axis: u8, positive_face: bool) -> u8 {
    if axis == 0 {
        if positive_face { 0 } else { 1 }
    } else if axis == 1 {
        if positive_face { 2 } else { 3 }
    } else if axis == 2 {
        if positive_face { 4 } else { 5 }
    } else {
        0
    }
}

pub fn face_index(axis: u8, positive_face: bool) -> (f: u8)
    ensures
        f == face_of(axis, positive_face),
{
    match (axis, positive_face) {
        (0, true) => 0,
        (0, false) => 1,
        (1, true) => 2,
        (1, false) => 3,
        (2, true) => 4,
        (2, false) => 5,
        _ => 0,
    }
}

/// Offset of corner `i` (0..4) along the first tangent axis.
pub open spec fn corner_du(q: GreedyQuad, i: int) -> u8 {
    if i == 1 || i == 2 {
        q.size[0]
    } else {
        0
    }
}

/// Offset of corner `i` (0..4) along the second tangent axis.
pub open spec fn corner_dv(q: GreedyQuad, i: int) -> u8 {
    if i == 2 || i == 3 {
        q.size[1]
    } else {
        0
    }
}

/// Coordinate `c` of corner `i` of a quad.
pub open spec fn corner_coord(q: GreedyQuad, i: int, c: int) -> u8 {
    if c == u_axis(q.axis as int) {
        (q.origin[c] + corner_du(q, i)) as u8
    } else if c == v_axis(q.axis as int) {
        (q.origin[c] + corner_dv(q, i)) as u8
    } else {
        q.origin[c]
    }
}

/// The four vertices of a quad in corner order (0,0), (w,0), (w,h), (0,h);
/// X faces swap the texture coordinates so that V follows world Y.
pub open spec fn quad_vertex(q: GreedyQuad, ao: [u8; 4], i: int) -> PackedVertex {
    let du = corner_du(q, i);
    let dv = corner_dv(q, i);
    let uv0 = if q.axis == 0 { dv } else { du };
    let uv1 = if q.axis == 0 { du } else { dv };
    PackedVertex(
        [
            word0(corner_coord(q, i, 0), corner_coord(q, i, 1), corner_coord(q, i, 2), face_of(q.axis, q.positive_face), ao[i]),
            word1(q.block_id, uv0, uv1),
        ],
    )
}

pub open spec fn quad_vertices(q: GreedyQuad, ao: [u8; 4]) -> Seq<PackedVertex> {
    seq![quad_vertex(q, ao, 0), quad_vertex(q, ao, 1), quad_vertex(q, ao, 2), quad_vertex(q, ao, 3)]
}

/// The quad's diagonal is flipped when `ao[0] + ao[2] < ao[1] + ao[3]`.
pub open spec fn diagonal_flipped(ao: [u8; 4]) -> bool {
    ao[0] + ao[2] < ao[1] + ao[3]
}

/// The six indices of a quad whose first vertex has index `b`.
pub open spec fn quad_indices(ao: [u8; 4], b: u32) -> Seq<u32> {
    if diagonal_flipped(ao) {
        seq![b, (b + 1) as u32, (b + 3) as u32, (b + 1) as u32, (b + 2) as u32, (b + 3) as u32]
    } else {
        seq![b, (b + 1) as u32, (b + 2) as u32, b, (b + 2) as u32, (b + 3) as u32]
    }
}

/// A quad is split along the diagonal whose corners are the brighter pair:
/// when corners 1 and 3 together are brighter than corners 0 and 2, the two
/// triangles are (0, 1, 3) and (1, 2, 3); otherwise (0, 1, 2) and (0, 2, 3).
pub proof fn law_quad_splits_along_brighter_diagonal(ao: [u8; 4], b: u32)
    requires
        b + 3 <= u32::MAX,
    ensures
        ao[0] + ao[2] < ao[1] + ao[3] ==> quad_indices(ao, b) == seq![
            b,
            (b + 1) as u32,
            (b + 3) as u32,
            (b + 1) as u32,
            (b + 2) as u32,
            (b + 3) as u32,
        ],
        ao[1] + ao[3] <= ao[0] + ao[2] ==> quad_indices(ao, b) == seq![
            b,
            (b + 1) as u32,
            (b + 2) as u32,
            b,
            (b + 2) as u32,
            (b + 3) as u32,
        ],
{
}

/// A quad whose corners stay inside the u8 coordinate range.
pub open spec fn quad_fits(q: GreedyQuad) -> bool {
    &&& q.axis < 3
    &&& q.origin[u_axis(q.axis as int)] + q.size[0] <= 255
    &&& q.origin[v_axis(q.axis as int)] + q.size[1] <= 255
}

/// Appends the quad's four vertices and six indices.
pub fn pack_quad(quad: &GreedyQuad, ao: [u8; 4], vertices: &mut Vec<PackedVertex>, indices: &mut Vec<u32>)
    requires
        quad_fits(*quad),
        old(vertices).len() + 3 <= u32::MAX,
    ensures
        final(vertices)@ == old(vertices)@ + quad_vertices(*quad, ao),
        final(indices)@ == old(indices)@ + quad_indices(ao, old(vertices).len() as u32),
        ao[0] + ao[2] < ao[1] + ao[3] ==> final(indices)@ == old(indices)@ + seq![
            old(vertices).len() as u32,
            (old(vertices).len() + 1) as u32,
            (old(vertices).len() + 3) as u32,
            (old(vertices).len() + 1) as u32,
            (old(vertices).len() + 2) as u32,
            (old(vertices).len() + 3) as u32,
        ],
        ao[1] + ao[3] <= ao[0] + ao[2] ==> final(indices)@ == old(indices)@ + seq![
            old(vertices).len() as u32,
            (old(vertices).len() + 1) as u32,
            (old(vertices).len() + 2) as u32,
            old(vertices).len() as u32,
            (old(vertices).len() + 2) as u32,
            (old(vertices).len() + 3) as u32,
        ],
{
    let base_index = vertices.len() as u32;
    let face = face_index(quad.axis, quad.positive_face);
    let (u_ax, v_ax) = plane_axes(quad.axis);
    let ghost old_vertices = vertices@;
    let mut i: usize = 0;
    while i < 4
        invariant
            i <= 4,
            quad_fits(*quad),
            u_ax == u_axis(quad.axis as int),
            v_ax == v_axis(quad.axis as int),
            face == face_of(quad.axis, quad.positive_face),
            vertices@ == old_vertices + quad_vertices(*quad, ao).take(i as int),
        decreases 4 - i,
    {
        let du: u8 = if i == 1 || i == 2 { quad.size[0] } else { 0 };
        let dv: u8 = if i == 2 || i == 3 { quad.size[1] } else { 0 };
        let mut pos = quad.origin;
        pos[u_ax] = quad.origin[u_ax] + du;
        pos[v_ax] = quad.origin[v_ax] + dv;
        let uv: [u8; 2] = if quad.axis == 0 { [dv, du] } else { [du, dv] };
        let vertex = pack_vertex(pos, face, quad.block_id, uv, ao[i]);
        proof {
            assert(vertex == quad_vertex(*quad, ao, i as int));
            assert(quad_vertices(*quad, ao).take(i + 1) =~= quad_vertices(*quad, ao).take(i as int).push(
                quad_vertex(*quad, ao, i as int),
            ));
        }
        vertices.push(vertex);
        i += 1;
    }
    assert(quad_vertices(*quad, ao).take(4) =~= quad_vertices(*quad, ao));
    let diag_a = ao[0] as u16 + ao[2] as u16;
    let diag_b = ao[1] as u16 + ao[3] as u16;
    if diag_a < diag_b {
        indices.push(base_index);
        indices.push(base_index + 1);
        indices.push(base_index + 3);
        indices.push(base_index + 1);
        indices.push(base_index + 2);
        indices.push(base_index + 3);
    } else {
        indices.push(base_index);
        indices.push(base_index + 1);
        indices.push(base_index + 2);
        indices.push(base_index);
        indices.push(base_index + 2);
        indices.push(base_index + 3);
    }
    assert(indices@ =~= old(indices)@ + quad_indices(ao, base_index));
}

// ---------------------------------------------------------------------
// Meshlet meshes
// ---------------------------------------------------------------------

/// Per-meshlet metadata: offsets into the meshlet vertex and triangle
/// buffers, counts, bounds and LOD information. The floating-point bounds
/// (`center`, `radius`, `cone_axis`, `cone_cutoff`, `parent_error`) are
/// carried as IEEE-754 bit patterns.
#[derive(Clone, Copy, Debug, PartialEq, Eq)]
pub struct MeshletDescriptor {
    pub vertex_offset: u32,
    pub triangle_offset: u32,
    pub vertex_count: u32,
    pub triangle_count: u32,
    pub center: [u32; 3],
    pub radius: u32,
    pub cone_axis: [u32; 3],
    pub cone_cutoff: u32,
    pub lod_level: u8,
    pub group_id: u32,
    pub parent_error: u32,
}

/// A mesh split into meshlets: descriptors, re-indexed vertices, local
/// triangle indices (three bytes per triangle) and the chunk's box.
#[derive(Debug)]
pub struct MeshletMesh {
    pub meshlets: Vec<MeshletDescriptor>,
    pub vertices: Vec<PackedVertex>,
    pub triangles: Vec<u8>,
    pub aabb_min: [i32; 3],
    pub aabb_max: [i32; 3],
}

/// The local triangle indices of one meshlet.
pub open spec fn meshlet_triangles(m: MeshletDescriptor, tris: Seq<u8>) -> Seq<u8> {
    tris.subrange(m.triangle_offset as int, m.triangle_offset + 3 * m.triangle_count)
}

/// A meshlet's triangles lie inside the triangle buffer and its global
/// indices fit in u32.
pub open spec fn meshlet_in_bounds(m: MeshletDescriptor, tris: Seq<u8>) -> bool {
    &&& m.triangle_offset + 3 * m.triangle_count <= tris.len()
    &&& forall|k: int|
        m.triangle_offset <= k < m.triangle_offset + 3 * m.triangle_count ==> m.vertex_offset + #[trigger] tris[k] <= u32::MAX
}

/// Global vertex indices of a meshlet's triangles.
pub open spec fn meshlet_global_indices(m: MeshletDescriptor, tris: Seq<u8>) -> Seq<u32> {
    meshlet_triangles(m, tris).map_values(|l: u8| (m.vertex_offset + l) as u32)
}

/// Global index list of all meshlets, in meshlet order.
pub open spec fn flat_indices_of(ms: Seq<MeshletDescriptor>, tris: Seq<u8>) -> Seq<u32>
    decreases ms.len(),
{
    if ms.len() == 0 {
        seq![]
    } else {
        flat_indices_of(ms.drop_last(), tris) + meshlet_global_indices(ms.last(), tris)
    }
}

impl MeshletMesh {
    /// Every meshlet's triangles lie inside the triangle buffer with indices
    /// that fit in u32.
    pub open spec fn in_bounds(self) -> bool {
        forall|i: int| 0 <= i < self.meshlets@.len() ==> meshlet_in_bounds(#[trigger] self.meshlets@[i], self.triangles@)
    }

    /// Whether every meshlet lies inside the triangle buffer with global
    /// indices that fit in `u32`: exactly `in_bounds`.
    pub fn check_in_bounds(&self) -> (b: bool)
        ensures
            b == self.in_bounds(),
    {
        let mut i: usize = 0;
        while i < self.meshlets.len()
            invariant
                i <= self.meshlets@.len(),
                forall|a: int| 0 <= a < i ==> meshlet_in_bounds(#[trigger] self.meshlets@[a], self.triangles@),
            decreases self.meshlets@.len() - i,
        {
            let m = self.meshlets[i];
            let end: u64 = m.triangle_offset as u64 + 3 * (m.triangle_count as u64);
            if end > self.triangles.len() as u64 {
                proof {
                    assert(!meshlet_in_bounds(self.meshlets@[i as int], self.triangles@));
                }
                return false;
            }
            let end = end as usize;
            let mut k: usize = m.triangle_offset as usize;
            while k < end
                invariant
                    i < self.meshlets@.len(),
                    m == self.meshlets@[i as int],
                    m.triangle_offset <= k <= end,
                    end == m.triangle_offset + 3 * m.triangle_count,
                    end <= self.triangles@.len(),
                    forall|a: int| 0 <= a < i ==> meshlet_in_bounds(#[trigger] self.meshlets@[a], self.triangles@),
                    forall|j: int| m.triangle_offset <= j < k ==> m.vertex_offset + #[trigger] self.triangles@[j] <= u32::MAX,
                decreases end - k,
            {
                if m.vertex_offset as u64 + self.triangles[k] as u64 > u32::MAX as u64 {
                    proof {
                        assert(!meshlet_in_bounds(self.meshlets@[i as int], self.triangles@));
                    }
                    return false;
                }
                k += 1;
            }
            i += 1;
        }
        true
    }

    /// Flat global index list: each meshlet's local indices offset by its
    /// vertex offset.
    pub fn flat_indices(&self) -> (indices: Vec<u32>)
        requires
            self.in_bounds(),
        ensures
            indices@ == flat_indices_of(self.meshlets@, self.triangles@),
    {
        let mut indices: Vec<u32> = Vec::with_capacity(self.triangles.len());
        let mut i: usize = 0;
        while i < self.meshlets.len()
            invariant
                i <= self.meshlets@.len(),
                self.in_bounds(),
                indices@ == flat_indices_of(self.meshlets@.take(i as int), self.triangles@),
            decreases self.meshlets@.len() - i,
        {
            let m = self.meshlets[i];
            proof {
                assert(m == self.meshlets@[i as int]);
                assert(meshlet_in_bounds(m, self.triangles@));
                assert(m.triangle_offset + 3 * m.triangle_count <= self.triangles@.len());
            }
            let tri_len = self.triangles.len();
            let t_off = m.triangle_offset as usize;
            let t_count = m.triangle_count as usize;
            assert(t_off + 3 * t_count <= tri_len);
            let v_off = m.vertex_offset;
            let end = t_off + t_count * 3;
            let ghost start_indices = indices@;
            let mut k: usize = t_off;
            while k < end
                invariant
                    t_off <= k <= end,
                    end == m.triangle_offset + 3 * m.triangle_count,
                    t_off == m.triangle_offset,
                    v_off == m.vertex_offset,
                    meshlet_in_bounds(m, self.triangles@),
                    indices@ == start_indices + meshlet_global_indices(m, self.triangles@).take(k - t_off),
                decreases end - k,
            {
                let local_idx = self.triangles[k];
                indices.push(v_off + local_idx as u32);
                proof {
                    assert(meshlet_global_indices(m, self.triangles@).take(k + 1 - t_off) =~= meshlet_global_indices(
                        m,
                        self.triangles@,
                    ).take(k - t_off).push((v_off + local_idx) as u32));
                }
                k += 1;
            }
            proof {
                assert(meshlet_global_indices(m, self.triangles@).take(end - t_off) =~= meshlet_global_indices(m, self.triangles@));
                let t = self.meshlets@.take(i + 1);
                assert(t.drop_last() =~= self.meshlets@.take(i as int));
                assert(t.last() == m);
            }
            i += 1;
        }
        proof {
            assert(self.meshlets@.take(i as int) =~= self.meshlets@);
        }
        indices
    }

    /// The equivalent flat mesh: same vertices and box, flat indices, and
    /// one quad per six indices.
    pub fn to_packed_mesh(&self) -> (mesh: PackedMesh)
        requires
            self.in_bounds(),
        ensures
            mesh.vertices@ == self.vertices@,
            mesh.indices@ == flat_indices_of(self.meshlets@, self.triangles@),
            mesh.quad_count == (flat_indices_of(self.meshlets@, self.triangles@).len() / 6) as u32,
            mesh.aabb_min == self.aabb_min,
            mesh.aabb_max == self.aabb_max,
    {
        let indices = self.flat_indices();
        let quad_count = (indices.len() / 6) as u32;
        let mut vertices: Vec<PackedVertex> = Vec::with_capacity(self.vertices.len());
        let mut i: usize = 0;
        while i < self.vertices.len()
            invariant
                i <= self.vertices@.len(),
                vertices@ == self.vertices@.take(i as int),
            decreases self.vertices@.len() - i,
        {
            vertices.push(self.vertices[i]);
            proof {
                assert(self.vertices@.take(i + 1) =~= self.vertices@.take(i as int).push(self.vertices@[i as int]));
            }
            i += 1;
        }
        proof {
            assert(self.vertices@.take(i as int) =~= self.vertices@);
        }
        PackedMesh { vertices, indices, quad_count, aabb_min: self.aabb_min, aabb_max: self.aabb_max }
    }
}

/// One meshlet as split off by the clustering: the mesh vertices it uses
/// (indices into the mesh's vertex list, in meshlet-local order), its
/// triangles as meshlet-local byte indices (three per triangle), and its
/// bounds as IEEE-754 bit patterns.
#[derive(Debug, Clone)]
pub struct MeshletCluster {
    pub vertices: Vec<u32>,
    pub triangles: Vec<u8>,
    pub center: [u32; 3],
    pub radius: u32,
    pub cone_axis: [u32; 3],
    pub cone_cutoff: u32,
}

/// Bit pattern of `f32::MAX`: "no coarser level exists".
pub const NO_PARENT_ERROR: u32 = 0x7F7F_FFFF;

/// The mesh vertices named by `idx`, in order.
pub open spec fn gathered(vertices: Seq<PackedVertex>, idx: Seq<u32>) -> Seq<PackedVertex> {
    Seq::new(idx.len(), |j: int| vertices[idx[j] as int])
}

/// Re-indexed vertices of all clusters, cluster after cluster.
pub open spec fn cluster_vertices(vertices: Seq<PackedVertex>, cs: Seq<MeshletCluster>) -> Seq<PackedVertex>
    decreases cs.len(),
{
    if cs.len() == 0 {
        seq![]
    } else {
        cluster_vertices(vertices, cs.drop_last()) + gathered(vertices, cs.last().vertices@)
    }
}

/// Triangle bytes of all clusters, cluster after cluster.
pub open spec fn cluster_triangles(cs: Seq<MeshletCluster>) -> Seq<u8>
    decreases cs.len(),
{
    if cs.len() == 0 {
        seq![]
    } else {
        cluster_triangles(cs.drop_last()) + cs.last().triangles@
    }
}

/// The descriptor of cluster `i`: offsets just past the clusters before
/// it, its counts and bounds, level 0, group 0, no parent error.
pub open spec fn cluster_descriptor(vertices: Seq<PackedVertex>, cs: Seq<MeshletCluster>, i: int) -> MeshletDescriptor {
    MeshletDescriptor {
        vertex_offset: cluster_vertices(vertices, cs.take(i)).len() as u32,
        triangle_offset: cluster_triangles(cs.take(i)).len() as u32,
        vertex_count: cs[i].vertices@.len() as u32,
        triangle_count: (cs[i].triangles@.len() / 3) as u32,
        center: cs[i].center,
        radius: cs[i].radius,
        cone_axis: cs[i].cone_axis,
        cone_cutoff: cs[i].cone_cutoff,
        lod_level: 0,
        group_id: 0,
        parent_error: NO_PARENT_ERROR,
    }
}

/// Cluster indices name mesh vertices and the totals fit in `u32`.
pub open spec fn clusters_fit(vertices: Seq<PackedVertex>, cs: Seq<MeshletCluster>) -> bool {
    &&& forall|i: int, j: int|
        0 <= i < cs.len() && 0 <= j < cs[i].vertices@.len() ==> #[trigger] cs[i].vertices@[j] < vertices.len()
    &&& cluster_vertices(vertices, cs).len() <= u32::MAX
    &&& cluster_triangles(cs).len() <= u32::MAX
}

/// Prefix totals grow with the prefix.
pub proof fn lemma_cluster_totals_monotone(vertices: Seq<PackedVertex>, cs: Seq<MeshletCluster>, i: int)
    requires
        0 <= i <= cs.len(),
    ensures
        cluster_vertices(vertices, cs.take(i)).len() <= cluster_vertices(vertices, cs).len(),
        cluster_triangles(cs.take(i)).len() <= cluster_triangles(cs).len(),
    decreases cs.len() - i,
{
    if i < cs.len() {
        lemma_cluster_totals_monotone(vertices, cs, i + 1);
        let t = cs.take(i + 1);
        assert(t.drop_last() =~= cs.take(i));
    } else {
        assert(cs.take(i) =~= cs);
    }
}

/// Meshlets merged into one LOD group, and the fewest LOD0 meshlets for
/// which a LOD1 level is built.
pub const LOD_GROUP_SIZE: usize = 4;

/// Whether a packed mesh has geometry to cluster: a vertex and an index.
pub fn has_geometry(packed: &PackedMesh) -> (b: bool)
    ensures
        b == (packed.vertices@.len() > 0 && packed.indices@.len() > 0),
{
    packed.vertices.len() > 0 && packed.indices.len() > 0
}

/// A LOD1 level is built once there are `LOD_GROUP_SIZE` LOD0 meshlets.
pub fn builds_lod(meshlet_count: usize) -> (b: bool)
    ensures
        b == (meshlet_count >= LOD_GROUP_SIZE),
{
    meshlet_count >= LOD_GROUP_SIZE
}

/// A LOD group is simplified only when it holds two meshlets or more.
pub fn group_simplifiable(member_count: usize) -> (b: bool)
    ensures
        b == (member_count >= 2),
{
    member_count >= 2
}

/// One more cluster adds its vertex and triangle counts to the totals.
proof fn lemma_cluster_totals_step(vertices: Seq<PackedVertex>, cs: Seq<MeshletCluster>, i: int)
    requires
        0 <= i < cs.len(),
    ensures
        cluster_vertices(vertices, cs.take(i + 1)).len() == cluster_vertices(vertices, cs.take(i)).len()
            + cs[i].vertices@.len(),
        cluster_triangles(cs.take(i + 1)).len() == cluster_triangles(cs.take(i)).len() + cs[i].triangles@.len(),
{
    let t = cs.take(i + 1);
    assert(t.drop_last() =~= cs.take(i));
    assert(t.last() == cs[i]);
}

/// Whether every cluster vertex names one of `vertices` and the cluster
/// totals, added to `base_vertices` and `base_triangles`, fit in `u32`.
fn clusters_fit_after(
    base_vertices: u64,
    base_triangles: u64,
    vertices: &[PackedVertex],
    clusters: &[MeshletCluster],
) -> (b: bool)
    requires
        base_vertices <= u32::MAX,
        base_triangles <= u32::MAX,
    ensures
        b == ((forall|i: int, j: int|
            0 <= i < clusters@.len() && 0 <= j < clusters@[i].vertices@.len() ==> #[trigger] clusters@[i].vertices@[j]
                < vertices@.len()) && base_vertices + cluster_vertices(vertices@, clusters@).len() <= u32::MAX
            && base_triangles + cluster_triangles(clusters@).len() <= u32::MAX),
{
    let ghost pv = vertices@;
    let ghost cs = clusters@;
    let mut vsum: u64 = base_vertices;
    let mut tsum: u64 = base_triangles;
    let mut i: usize = 0;
    while i < clusters.len()
        invariant
            i <= cs.len(),
            pv == vertices@,
            cs == clusters@,
            base_vertices <= vsum <= u32::MAX,
            base_triangles <= tsum <= u32::MAX,
            vsum == base_vertices + cluster_vertices(pv, cs.take(i as int)).len(),
            tsum == base_triangles + cluster_triangles(cs.take(i as int)).len(),
            forall|a: int, j: int|
                0 <= a < i && 0 <= j < cs[a].vertices@.len() ==> #[trigger] cs[a].vertices@[j] < pv.len(),
        decreases cs.len() - i,
    {
        let c = &clusters[i];
        let mut j: usize = 0;
        while j < c.vertices.len()
            invariant
                j <= c.vertices@.len(),
                i < cs.len(),
                cs == clusters@,
                *c == cs[i as int],
                pv == vertices@,
                forall|k: int| 0 <= k < j ==> #[trigger] c.vertices@[k] < pv.len(),
            decreases c.vertices@.len() - j,
        {
            if c.vertices[j] as usize >= vertices.len() {
                proof {
                    assert(cs[i as int].vertices@[j as int] >= pv.len());
                }
                return false;
            }
            j += 1;
        }
        proof {
            lemma_cluster_totals_step(pv, cs, i as int);
            lemma_cluster_totals_monotone(pv, cs, i + 1);
        }
        let nv = c.vertices.len() as u64;
        let nt = c.triangles.len() as u64;
        if nv > u32::MAX as u64 - vsum || nt > u32::MAX as u64 - tsum {
            return false;
        }
        vsum = vsum + nv;
        tsum = tsum + nt;
        i += 1;
    }
    proof {
        assert(cs.take(cs.len() as int) =~= cs);
    }
    true
}

/// Whether `clusters` meet what `meshlet_mesh_from_clusters` asks: exactly
/// `clusters_fit`.
pub fn check_clusters_fit(vertices: &[PackedVertex], clusters: &[MeshletCluster]) -> (b: bool)
    ensures
        b == clusters_fit(vertices@, clusters@),
{
    clusters_fit_after(0, 0, vertices, clusters)
}

/// Whether `clusters` of `source` meet what `append_lod_clusters` asks of
/// them on `mesh`.
pub fn check_lod_clusters_fit(mesh: &MeshletMesh, source: &[PackedVertex], clusters: &[MeshletCluster]) -> (b: bool)
    ensures
        b == (clusters_fit(source@, clusters@) && mesh.vertices@.len() + cluster_vertices(source@, clusters@).len()
            <= u32::MAX && mesh.triangles@.len() + cluster_triangles(clusters@).len() <= u32::MAX),
{
    if mesh.vertices.len() as u64 > u32::MAX as u64 || mesh.triangles.len() as u64 > u32::MAX as u64 {
        return false;
    }
    clusters_fit_after(mesh.vertices.len() as u64, mesh.triangles.len() as u64, source, clusters)
}

/// Whether the corner list `g` meets what `merge_group` asks: at most
/// `u32::MAX` corners, each naming one of `vertices`.
pub fn check_group_corners(g: &[u32], vertices: &[PackedVertex]) -> (b: bool)
    ensures
        b == (g@.len() <= u32::MAX && forall|i: int| 0 <= i < g@.len() ==> #[trigger] g@[i] < vertices@.len()),
{
    if g.len() as u64 > u32::MAX as u64 {
        return false;
    }
    let mut i: usize = 0;
    while i < g.len()
        invariant
            i <= g@.len(),
            forall|a: int| 0 <= a < i ==> #[trigger] g@[a] < vertices@.len(),
        decreases g@.len() - i,
    {
        if g[i] as usize >= vertices.len() {
            return false;
        }
        i += 1;
    }
    true
}

/// Assembles a meshlet mesh from clusters of `packed`: each cluster's
/// vertices copied in meshlet-local order, its triangle bytes appended,
/// and a level-0 descriptor recording where they start. The box is
/// `packed`'s.
pub fn meshlet_mesh_from_clusters(packed: &PackedMesh, clusters: &[MeshletCluster]) -> (mesh: MeshletMesh)
    requires
        clusters_fit(packed.vertices@, clusters@),
    ensures
        mesh.vertices@ == cluster_vertices(packed.vertices@, clusters@),
        mesh.triangles@ == cluster_triangles(clusters@),
        mesh.meshlets@ == Seq::new(clusters@.len(), |i: int| cluster_descriptor(packed.vertices@, clusters@, i)),
        mesh.aabb_min == packed.aabb_min,
        mesh.aabb_max == packed.aabb_max,
{
    let ghost pv = packed.vertices@;
    let ghost cs = clusters@;
    let mut meshlets: Vec<MeshletDescriptor> = Vec::new();
    let mut vertices: Vec<PackedVertex> = Vec::new();
    let mut triangles: Vec<u8> = Vec::new();
    let mut i: usize = 0;
    while i < clusters.len()
        invariant
            i <= cs.len(),
            pv == packed.vertices@,
            cs == clusters@,
            clusters_fit(pv, cs),
            vertices@ == cluster_vertices(pv, cs.take(i as int)),
            triangles@ == cluster_triangles(cs.take(i as int)),
            meshlets@ == Seq::new(i as nat, |k: int| cluster_descriptor(pv, cs, k)),
        decreases cs.len() - i,
    {
        let c = &clusters[i];
        proof {
            lemma_cluster_totals_monotone(pv, cs, i + 1);
            let t = cs.take(i + 1);
            assert(t.drop_last() =~= cs.take(i as int));
            assert(t.last() == cs[i as int]);
        }
        let vertex_offset = vertices.len() as u32;
        let triangle_offset = triangles.len() as u32;
        let ghost v0 = vertices@;
        let mut j: usize = 0;
        while j < c.vertices.len()
            invariant
                j <= c.vertices@.len(),
                pv == packed.vertices@,
                cs == clusters@,
                i < cs.len(),
                *c == cs[i as int],
                clusters_fit(pv, cs),
                vertices@ == v0 + gathered(pv, c.vertices@.take(j as int)),
            decreases c.vertices@.len() - j,
        {
            let idx = c.vertices[j];
            proof {
                assert(cs[i as int].vertices@[j as int] < pv.len());
            }
            vertices.push(packed.vertices[idx as usize]);
            assert(gathered(pv, c.vertices@.take(j + 1)) =~= gathered(pv, c.vertices@.take(j as int)).push(pv[idx as int]));
            j += 1;
        }
        assert(c.vertices@.take(j as int) =~= c.vertices@);
        let ghost t0 = triangles@;
        let mut k: usize = 0;
        while k < c.triangles.len()
            invariant
                k <= c.triangles@.len(),
                triangles@ == t0 + c.triangles@.take(k as int),
            decreases c.triangles@.len() - k,
        {
            triangles.push(c.triangles[k]);
            assert(c.triangles@.take(k + 1) =~= c.triangles@.take(k as int).push(c.triangles@[k as int]));
            k += 1;
        }
        assert(c.triangles@.take(k as int) =~= c.triangles@);
        meshlets.push(
            MeshletDescriptor {
                vertex_offset,
                triangle_offset,
                vertex_count: c.vertices.len() as u32,
                triangle_count: (c.triangles.len() / 3) as u32,
                center: c.center,
                radius: c.radius,
                cone_axis: c.cone_axis,
                cone_cutoff: c.cone_cutoff,
                lod_level: 0,
                group_id: 0,
                parent_error: NO_PARENT_ERROR,
            },
        );
        proof {
            assert(meshlets@ =~= Seq::new((i + 1) as nat, |k: int| cluster_descriptor(pv, cs, k)));
        }
        i += 1;
    }
    proof {
        assert(cs.take(i as int) =~= cs);
    }
    MeshletMesh { meshlets, vertices, triangles, aabb_min: packed.aabb_min, aabb_max: packed.aabb_max }
}

/// The descriptor of cluster `i` when the clusters are appended after
/// `base_vertices` vertices and `base_triangles` triangle bytes, at LOD
/// `lod_level`, in group `group_id`, with parent error `parent_error`.
pub open spec fn appended_descriptor(
    base_vertices: int,
    base_triangles: int,
    vertices: Seq<PackedVertex>,
    cs: Seq<MeshletCluster>,
    i: int,
    lod_level: u8,
    group_id: u32,
    parent_error: u32,
) -> MeshletDescriptor {
    MeshletDescriptor {
        vertex_offset: (base_vertices + cluster_vertices(vertices, cs.take(i)).len()) as u32,
        triangle_offset: (base_triangles + cluster_triangles(cs.take(i)).len()) as u32,
        vertex_count: cs[i].vertices@.len() as u32,
        triangle_count: (cs[i].triangles@.len() / 3) as u32,
        center: cs[i].center,
        radius: cs[i].radius,
        cone_axis: cs[i].cone_axis,
        cone_cutoff: cs[i].cone_cutoff,
        lod_level,
        group_id,
        parent_error,
    }
}

/// Appends clusters of `source` vertices to `mesh` as meshlets of one LOD
/// group: each cluster's vertices copied in meshlet-local order after the
/// mesh's vertices, its triangle bytes after the mesh's triangles, and a
/// descriptor recording where they start, with the given level, group and
/// parent error. The box is unchanged.
pub fn append_lod_clusters(
    mesh: &mut MeshletMesh,
    source: &[PackedVertex],
    clusters: &[MeshletCluster],
    lod_level: u8,
    group_id: u32,
    parent_error: u32,
)
    requires
        clusters_fit(source@, clusters@),
        old(mesh).vertices@.len() + cluster_vertices(source@, clusters@).len() <= u32::MAX,
        old(mesh).triangles@.len() + cluster_triangles(clusters@).len() <= u32::MAX,
    ensures
        final(mesh).vertices@ == old(mesh).vertices@ + cluster_vertices(source@, clusters@),
        final(mesh).triangles@ == old(mesh).triangles@ + cluster_triangles(clusters@),
        final(mesh).meshlets@ == old(mesh).meshlets@ + Seq::new(
            clusters@.len(),
            |i: int|
                appended_descriptor(
                    old(mesh).vertices@.len() as int,
                    old(mesh).triangles@.len() as int,
                    source@,
                    clusters@,
                    i,
                    lod_level,
                    group_id,
                    parent_error,
                ),
        ),
        final(mesh).aabb_min == old(mesh).aabb_min,
        final(mesh).aabb_max == old(mesh).aabb_max,
{
    let ghost pv = source@;
    let ghost cs = clusters@;
    let ghost v_base = mesh.vertices@;
    let ghost t_base = mesh.triangles@;
    let ghost m_base = mesh.meshlets@;
    let ghost bv = v_base.len() as int;
    let ghost bt = t_base.len() as int;
    let mut i: usize = 0;
    while i < clusters.len()
        invariant
            i <= cs.len(),
            pv == source@,
            cs == clusters@,
            clusters_fit(pv, cs),
            bv + cluster_vertices(pv, cs).len() <= u32::MAX,
            bt + cluster_triangles(cs).len() <= u32::MAX,
            bv == v_base.len(),
            bt == t_base.len(),
            mesh.vertices@ == v_base + cluster_vertices(pv, cs.take(i as int)),
            mesh.triangles@ == t_base + cluster_triangles(cs.take(i as int)),
            mesh.meshlets@ == m_base + Seq::new(
                i as nat,
                |k: int| appended_descriptor(bv, bt, pv, cs, k, lod_level, group_id, parent_error),
            ),
            mesh.aabb_min == old(mesh).aabb_min,
            mesh.aabb_max == old(mesh).aabb_max,
        decreases cs.len() - i,
    {
        let c = &clusters[i];
        proof {
            lemma_cluster_totals_monotone(pv, cs, i + 1);
            let t = cs.take(i + 1);
            assert(t.drop_last() =~= cs.take(i as int));
            assert(t.last() == cs[i as int]);
        }
        let vertex_offset = mesh.vertices.len() as u32;
        let triangle_offset = mesh.triangles.len() as u32;
        let ghost v0 = mesh.vertices@;
        let mut j: usize = 0;
        while j < c.vertices.len()
            invariant
                j <= c.vertices@.len(),
                pv == source@,
                cs == clusters@,
                i < cs.len(),
                *c == cs[i as int],
                clusters_fit(pv, cs),
                mesh.vertices@ == v0 + gathered(pv, c.vertices@.take(j as int)),
                mesh.triangles@ == t_base + cluster_triangles(cs.take(i as int)),
                mesh.meshlets@ == m_base + Seq::new(
                    i as nat,
                    |k: int| appended_descriptor(bv, bt, pv, cs, k, lod_level, group_id, parent_error),
                ),
                mesh.aabb_min == old(mesh).aabb_min,
                mesh.aabb_max == old(mesh).aabb_max,
            decreases c.vertices@.len() - j,
        {
            let idx = c.vertices[j];
            proof {
                assert(cs[i as int].vertices@[j as int] < pv.len());
            }
            mesh.vertices.push(source[idx as usize]);
            assert(gathered(pv, c.vertices@.take(j + 1)) =~= gathered(pv, c.vertices@.take(j as int)).push(pv[idx as int]));
            j += 1;
        }
        assert(c.vertices@.take(j as int) =~= c.vertices@);
        let ghost t0 = mesh.triangles@;
        let mut k: usize = 0;
        while k < c.triangles.len()
            invariant
                k <= c.triangles@.len(),
                mesh.triangles@ == t0 + c.triangles@.take(k as int),
                mesh.vertices@ == v0 + gathered(pv, c.vertices@),
                mesh.meshlets@ == m_base + Seq::new(
                    i as nat,
                    |k: int| appended_descriptor(bv, bt, pv, cs, k, lod_level, group_id, parent_error),
                ),
                mesh.aabb_min == old(mesh).aabb_min,
                mesh.aabb_max == old(mesh).aabb_max,
            decreases c.triangles@.len() - k,
        {
            mesh.triangles.push(c.triangles[k]);
            assert(c.triangles@.take(k + 1) =~= c.triangles@.take(k as int).push(c.triangles@[k as int]));
            k += 1;
        }
        assert(c.triangles@.take(k as int) =~= c.triangles@);
        mesh.meshlets.push(
            MeshletDescriptor {
                vertex_offset,
                triangle_offset,
                vertex_count: c.vertices.len() as u32,
                triangle_count: (c.triangles.len() / 3) as u32,
                center: c.center,
                radius: c.radius,
                cone_axis: c.cone_axis,
                cone_cutoff: c.cone_cutoff,
                lod_level,
                group_id,
                parent_error,
            },
        );
        proof {
            assert(mesh.vertices@ =~= v_base + cluster_vertices(pv, cs.take(i + 1)));
            assert(mesh.triangles@ =~= t_base + cluster_triangles(cs.take(i + 1)));
            assert(mesh.meshlets@ =~= m_base + Seq::new(
                (i + 1) as nat,
                |k: int| appended_descriptor(bv, bt, pv, cs, k, lod_level, group_id, parent_error),
            ));
        }
        i += 1;
    }
    proof {
        assert(cs.take(i as int) =~= cs);
    }
}

/// The descriptors of the meshlets numbered `members`, in that order.
pub open spec fn member_descriptors(ms: Seq<MeshletDescriptor>, members: Seq<usize>) -> Seq<MeshletDescriptor> {
    members.map_values(|m: usize| ms[m as int])
}

/// The distinct values of `g` in the order they first appear.
pub open spec fn first_seen(g: Seq<u32>) -> Seq<u32>
    decreases g.len(),
{
    if g.len() == 0 {
        seq![]
    } else {
        let p = first_seen(g.drop_last());
        if p.contains(g.last()) {
            p
        } else {
            p.push(g.last())
        }
    }
}

/// A group of meshlets merged into one index space: the distinct mesh
/// vertices they use (first use first), those vertices, and each triangle
/// corner as a position in that list.
pub struct MergedGroup {
    pub globals: Vec<u32>,
    pub vertices: Vec<PackedVertex>,
    pub indices: Vec<u32>,
}

impl MeshletMesh {
    /// Global vertex indices of the triangles of meshlets `members`,
    /// meshlet after meshlet.
    pub fn group_global_indices(&self, members: &[usize]) -> (indices: Vec<u32>)
        requires
            self.in_bounds(),
            forall|i: int| 0 <= i < members@.len() ==> #[trigger] members@[i] < self.meshlets@.len(),
        ensures
            indices@ == flat_indices_of(member_descriptors(self.meshlets@, members@), self.triangles@),
    {
        let ghost md = member_descriptors(self.meshlets@, members@);
        let mut indices: Vec<u32> = Vec::new();
        let mut i: usize = 0;
        while i < members.len()
            invariant
                i <= members@.len(),
                md == member_descriptors(self.meshlets@, members@),
                self.in_bounds(),
                forall|q: int| 0 <= q < members@.len() ==> #[trigger] members@[q] < self.meshlets@.len(),
                indices@ == flat_indices_of(md.take(i as int), self.triangles@),
            decreases members@.len() - i,
        {
            let m = self.meshlets[members[i]];
            proof {
                assert(members@[i as int] < self.meshlets@.len());
                assert(m == self.meshlets@[members@[i as int] as int]);
                assert(m == md[i as int]);
                assert(meshlet_in_bounds(m, self.triangles@));
                assert(m.triangle_offset + 3 * m.triangle_count <= self.triangles@.len());
            }
            let tri_len = self.triangles.len();
            let t_off = m.triangle_offset as usize;
            let t_count = m.triangle_count as usize;
            assert(t_off + 3 * t_count <= tri_len);
            let v_off = m.vertex_offset;
            let end = t_off + t_count * 3;
            let ghost start_indices = indices@;
            let mut k: usize = t_off;
            while k < end
                invariant
                    t_off <= k <= end,
                    end == m.triangle_offset + 3 * m.triangle_count,
                    t_off == m.triangle_offset,
                    v_off == m.vertex_offset,
                    meshlet_in_bounds(m, self.triangles@),
                    indices@ == start_indices + meshlet_global_indices(m, self.triangles@).take(k - t_off),
                decreases end - k,
            {
                let local_idx = self.triangles[k];
                indices.push(v_off + local_idx as u32);
                proof {
                    assert(meshlet_global_indices(m, self.triangles@).take(k + 1 - t_off) =~= meshlet_global_indices(
                        m,
                        self.triangles@,
                    ).take(k - t_off).push((v_off + local_idx) as u32));
                }
                k += 1;
            }
            proof {
                assert(meshlet_global_indices(m, self.triangles@).take(end - t_off) =~= meshlet_global_indices(m, self.triangles@));
                let t = md.take(i + 1);
                assert(t.drop_last() =~= md.take(i as int));
                assert(t.last() == m);
            }
            i += 1;
        }
        proof {
            assert(md.take(i as int) =~= md);
        }
        indices
    }
}

/// Merges a group's triangle corners (global vertex indices `g`) into one
/// index space: the distinct vertices in first-use order, copied from
/// `vertices`, and each corner as a position in that list.
pub fn merge_group(g: &[u32], vertices: &[PackedVertex]) -> (m: MergedGroup)
    requires
        g@.len() <= u32::MAX,
        forall|i: int| 0 <= i < g@.len() ==> #[trigger] g@[i] < vertices@.len(),
    ensures
        m.globals@ == first_seen(g@),
        m.globals@.no_duplicates(),
        m.vertices@ == m.globals@.map_values(|x: u32| vertices@[x as int]),
        m.indices@.len() == g@.len(),
        forall|i: int|
            0 <= i < g@.len() ==> (#[trigger] m.indices@[i]) < m.globals@.len() && m.globals@[m.indices@[i] as int]
                == g@[i],
{
    let mut local_of: HashMap<u32, u32> = HashMap::new();
    let mut globals: Vec<u32> = Vec::new();
    let mut merged: Vec<PackedVertex> = Vec::new();
    let mut indices: Vec<u32> = Vec::new();
    let mut j: usize = 0;
    while j < g.len()
        invariant
            j <= g@.len() <= u32::MAX,
            forall|i: int| 0 <= i < g@.len() ==> #[trigger] g@[i] < vertices@.len(),
            globals@ == first_seen(g@.take(j as int)),
            globals@.no_duplicates(),
            globals@.len() <= j,
            forall|x: u32| #[trigger] local_of@.contains_key(x) <==> globals@.contains(x),
            forall|x: u32|
                #[trigger] local_of@.contains_key(x) ==> local_of@[x] < globals@.len() && globals@[local_of@[x] as int]
                    == x,
            merged@ == globals@.map_values(|x: u32| vertices@[x as int]),
            indices@.len() == j,
            forall|i: int|
                0 <= i < j ==> (#[trigger] indices@[i]) < globals@.len() && globals@[indices@[i] as int] == g@[i],
        decreases g@.len() - j,
    {
        let x = g[j];
        proof {
            let t = g@.take(j + 1);
            assert(t.drop_last() =~= g@.take(j as int));
            assert(t.last() == x);
        }
        let local = match local_of.get(&x) {
            Some(l) => *l,
            None => {
                let l = globals.len() as u32;
                let ghost before = globals@;
                globals.push(x);
                merged.push(vertices[x as usize]);
                local_of.insert(x, l);
                proof {
                    assert(!before.contains(x));
                    assert forall|a: int, b: int| 0 <= a < b < globals@.len() implies globals@[a] != globals@[b] by {
                        if b == before.len() {
                            assert(before[a] == globals@[a]);
                        }
                    }
                    assert forall|y: u32| #[trigger] local_of@.contains_key(y) <==> globals@.contains(y) by {
                        if y != x && globals@.contains(y) {
                            let w = choose|w: int| 0 <= w < globals@.len() && globals@[w] == y;
                            assert(w < before.len());
                            assert(before[w] == y);
                            assert(before.contains(y));
                        }
                        if y != x && before.contains(y) {
                            let w = choose|w: int| 0 <= w < before.len() && before[w] == y;
                            assert(globals@[w] == y);
                        }
                        if y == x {
                            assert(globals@[before.len() as int] == x);
                        }
                    }
                    assert(merged@ =~= globals@.map_values(|x: u32| vertices@[x as int]));
                }
                l
            },
        };
        indices.push(local);
        j += 1;
    }
    proof {
        assert(g@.take(j as int) =~= g@);
    }
    MergedGroup { globals, vertices: merged, indices }
}

/// Global vertex indices of group `h`'s triangles.
pub open spec fn group_indices(mesh: MeshletMesh, groups: Seq<Vec<usize>>, h: int) -> Seq<u32> {
    flat_indices_of(member_descriptors(mesh.meshlets@, groups[h]@), mesh.triangles@)
}

/// Some group among the first `limit`, other than `group`, has a triangle
/// corner at mesh vertex `x`.
pub open spec fn used_by_other_group(
    mesh: MeshletMesh,
    groups: Seq<Vec<usize>>,
    group: int,
    limit: int,
    x: u32,
) -> bool {
    exists|h: int, i: int|
        0 <= h < limit && h != group && 0 <= i < group_indices(mesh, groups, h).len() && #[trigger] group_indices(
            mesh,
            groups,
            h,
        )[i] == x
}

/// Which of `globals` lie on a boundary of group `group`: a vertex is
/// locked when another group's triangles use it too.
pub fn boundary_locks(mesh: &MeshletMesh, groups: &Vec<Vec<usize>>, group: usize, globals: &[u32]) -> (locks: Vec<bool>)
    requires
        mesh.in_bounds(),
        forall|h: int, i: int|
            0 <= h < groups@.len() && 0 <= i < groups@[h]@.len() ==> #[trigger] groups@[h]@[i] < mesh.meshlets@.len(),
    ensures
        locks@.len() == globals@.len(),
        forall|l: int|
            0 <= l < globals@.len() ==> (#[trigger] locks@[l] <==> used_by_other_group(
                *mesh,
                groups@,
                group as int,
                groups@.len() as int,
                globals@[l],
            )),
{
    let mut used: HashMap<u32, bool> = HashMap::new();
    let mut hh: usize = 0;
    while hh < groups.len()
        invariant
            hh <= groups@.len(),
            mesh.in_bounds(),
            forall|h: int, i: int|
                0 <= h < groups@.len() && 0 <= i < groups@[h]@.len() ==> #[trigger] groups@[h]@[i] < mesh.meshlets@.len(),
            forall|x: u32| #[trigger] used@.contains_key(x) <==> used_by_other_group(*mesh, groups@, group as int, hh as int, x),
        decreases groups@.len() - hh,
    {
        if hh != group {
            let members = &groups[hh];
            proof {
                assert forall|i: int| 0 <= i < members@.len() implies #[trigger] members@[i] < mesh.meshlets@.len() by {
                    assert(groups@[hh as int]@[i] < mesh.meshlets@.len());
                }
            }
            let cur = mesh.group_global_indices(members.as_slice());
            assert(cur@ == group_indices(*mesh, groups@, hh as int));
            let mut k: usize = 0;
            while k < cur.len()
                invariant
                    k <= cur@.len(),
                    hh < groups@.len(),
                    hh != group,
                    cur@ == group_indices(*mesh, groups@, hh as int),
                    forall|x: u32|
                        #[trigger] used@.contains_key(x) <==> (used_by_other_group(*mesh, groups@, group as int, hh as int, x)
                            || exists|i: int| 0 <= i < k && cur@[i] == x),
                decreases cur@.len() - k,
            {
                let x = cur[k];
                used.insert(x, true);
                proof {
                    assert forall|y: u32| #[trigger] used@.contains_key(y) <==> (used_by_other_group(
                        *mesh,
                        groups@,
                        group as int,
                        hh as int,
                        y,
                    ) || exists|i: int| 0 <= i < k + 1 && cur@[i] == y) by {
                        if y == x {
                            assert(cur@[k as int] == y);
                        }
                    }
                }
                k += 1;
            }
            proof {
                assert forall|y: u32| #[trigger] used@.contains_key(y) <==> used_by_other_group(
                    *mesh,
                    groups@,
                    group as int,
                    hh + 1,
                    y,
                ) by {
                    if used_by_other_group(*mesh, groups@, group as int, hh + 1, y) {
                        let (h, i) = choose|h: int, i: int|
                            0 <= h < hh + 1 && h != group && 0 <= i < group_indices(*mesh, groups@, h).len()
                                && #[trigger] group_indices(*mesh, groups@, h)[i] == y;
                        if h == hh {
                            assert(cur@[i] == y);
                        } else {
                            assert(used_by_other_group(*mesh, groups@, group as int, hh as int, y));
                        }
                    }
                    if used_by_other_group(*mesh, groups@, group as int, hh as int, y) {
                        let (h, i) = choose|h: int, i: int|
                            0 <= h < hh && h != group && 0 <= i < group_indices(*mesh, groups@, h).len()
                                && #[trigger] group_indices(*mesh, groups@, h)[i] == y;
                        assert(group_indices(*mesh, groups@, h)[i] == y);
                    }
                    if exists|i: int| 0 <= i < cur@.len() && cur@[i] == y {
                        let i = choose|i: int| 0 <= i < cur@.len() && cur@[i] == y;
                        assert(group_indices(*mesh, groups@, hh as int)[i] == y);
                    }
                }
            }
        } else {
            proof {
                assert forall|y: u32| #[trigger] used@.contains_key(y) <==> used_by_other_group(
                    *mesh,
                    groups@,
                    group as int,
                    hh + 1,
                    y,
                ) by {
                    if used_by_other_group(*mesh, groups@, group as int, hh + 1, y) {
                        let (h, i) = choose|h: int, i: int|
                            0 <= h < hh + 1 && h != group && 0 <= i < group_indices(*mesh, groups@, h).len()
                                && #[trigger] group_indices(*mesh, groups@, h)[i] == y;
                        assert(h < hh);
                    }
                    if used_by_other_group(*mesh, groups@, group as int, hh as int, y) {
                        let (h, i) = choose|h: int, i: int|
                            0 <= h < hh && h != group && 0 <= i < group_indices(*mesh, groups@, h).len()
                                && #[trigger] group_indices(*mesh, groups@, h)[i] == y;
                        assert(group_indices(*mesh, groups@, h)[i] == y);
                    }
                }
            }
        }
        hh += 1;
    }
    let mut locks: Vec<bool> = Vec::new();
    let mut l: usize = 0;
    while l < globals.len()
        invariant
            l <= globals@.len(),
            hh == groups@.len(),
            forall|x: u32| #[trigger] used@.contains_key(x) <==> used_by_other_group(*mesh, groups@, group as int, hh as int, x),
            locks@.len() == l,
            forall|q: int|
                0 <= q < l ==> (#[trigger] locks@[q] <==> used_by_other_group(
                    *mesh,
                    groups@,
                    group as int,
                    groups@.len() as int,
                    globals@[q],
                )),
        decreases globals@.len() - l,
    {
        locks.push(used.contains_key(&globals[l]));
        l += 1;
    }
    locks
}

/// Index count a LOD group is simplified towards: a quarter of its
/// indices, at least one triangle.
pub fn lod_target_index_count(index_count: usize) -> (n: usize)
    ensures
        n == (if index_count / 4 >= 3 { index_count / 4 } else { 3 }),
{
    let quarter = index_count / 4;
    if quarter >= 3 {
        quarter
    } else {
        3
    }
}

/// Whether a simplification is kept: it produced triangles and removed at
/// least a tenth of the indices (`after < before * 9 / 10`, rounding down).
pub fn simplification_effective(before: usize, after: usize) -> (b: bool)
    ensures
        b == (after != 0 && after < before * 9 / 10),
{
    let threshold = (before as u128 * 9 / 10) as usize;
    proof {
        assert(before * 9 / 10 <= before) by (nonlinear_arith);
    }
    after != 0 && after < threshold
}

} // verus!
