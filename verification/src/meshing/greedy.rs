//! Greedy meshing: visible faces of each chunk slice are merged into
//! maximal rectangles, and each rectangle is packed with per-corner
//! ambient occlusion.

use vstd::prelude::*;

use crate::chunk::ChunkVoxels;
use crate::material::{face_visible, face_visible_against, is_transparent_block, transparent};
use super::packing::{pack_quad, quad_fits, quad_indices, quad_vertices, PackedMesh, PackedVertex};
use super::invalidation::MeshDirtyRecord;
use super::{plane_axes, u_axis, v_axis, ChunkNeighborSet, GreedyQuad};

verus! {

// ---------------------------------------------------------------------
// Sampling with a one-voxel halo
// ---------------------------------------------------------------------

pub open spec fn in_edge(c: int) -> bool {
    0 <= c < 64
}

/// Block of an optional neighbour chunk, air when the neighbour is absent.
pub open spec fn neighbor_block(o: Option<&ChunkVoxels>, x: int, y: int, z: int) -> u8 {
    match o {
        Some(c) => c.block_at(x, y, z),
        None => 0,
    }
}

/// Block seen at `(x, y, z)` from a chunk: its own voxels inside `[0, 64)³`,
/// the facing border voxel of a neighbour one step outside along exactly one
/// axis, and air anywhere else.
pub open spec fn sample<'a>(chunk: ChunkVoxels, n: ChunkNeighborSet<'a>, x: int, y: int, z: int) -> u8 {
    if in_edge(x) && in_edge(y) && in_edge(z) {
        chunk.block_at(x, y, z)
    } else if x == -1 && in_edge(y) && in_edge(z) {
        neighbor_block(n.nx, 63, y, z)
    } else if x == 64 && in_edge(y) && in_edge(z) {
        neighbor_block(n.px, 0, y, z)
    } else if y == -1 && in_edge(x) && in_edge(z) {
        neighbor_block(n.ny, x, 63, z)
    } else if y == 64 && in_edge(x) && in_edge(z) {
        neighbor_block(n.py, x, 0, z)
    } else if z == -1 && in_edge(x) && in_edge(y) {
        neighbor_block(n.nz, x, y, 63)
    } else if z == 64 && in_edge(x) && in_edge(y) {
        neighbor_block(n.pz, x, y, 0)
    } else {
        0
    }
}

fn neighbor_sample(o: Option<&ChunkVoxels>, x: u8, y: u8, z: u8) -> (b: u8)
    requires
        x < 64,
        y < 64,
        z < 64,
    ensures
        b == neighbor_block(o, x as int, y as int, z as int),
{
    match o {
        Some(c) => c.block(x, y, z),
        None => 0,
    }
}

fn sample_with_halo(chunk: &ChunkVoxels, neighbors: &ChunkNeighborSet<'_>, x: i32, y: i32, z: i32) -> (b: u8)
    ensures
        b == sample(*chunk, *neighbors, x as int, y as int, z as int),
{
    let xin = 0 <= x && x < 64;
    let yin = 0 <= y && y < 64;
    let zin = 0 <= z && z < 64;
    if xin && yin && zin {
        return chunk.block(x as u8, y as u8, z as u8);
    }
    if x == -1 && yin && zin {
        return neighbor_sample(neighbors.nx, 63, y as u8, z as u8);
    }
    if x == 64 && yin && zin {
        return neighbor_sample(neighbors.px, 0, y as u8, z as u8);
    }
    if y == -1 && xin && zin {
        return neighbor_sample(neighbors.ny, x as u8, 63, z as u8);
    }
    if y == 64 && xin && zin {
        return neighbor_sample(neighbors.py, x as u8, 0, z as u8);
    }
    if z == -1 && xin && yin {
        return neighbor_sample(neighbors.nz, x as u8, y as u8, 63);
    }
    if z == 64 && xin && yin {
        return neighbor_sample(neighbors.pz, x as u8, y as u8, 0);
    }
    0
}

// ---------------------------------------------------------------------
// Voxel ambient occlusion
// ---------------------------------------------------------------------

/// Air and transparent blocks do not occlude.
pub open spec fn occludes(b: u8) -> bool {
    b != 0 && !transparent(b)
}

pub open spec fn axis_off(c: int, a: int, d: int) -> int {
    if c == a {
        d
    } else {
        0
    }
}

pub open spec fn occludes_at<'a>(chunk: ChunkVoxels, n: ChunkNeighborSet<'a>, x: int, y: int, z: int) -> bool {
    occludes(sample(chunk, n, x, y, z))
}

/// AO level (0 dark .. 3 bright) of the corner at `p` offset by `du`/`dv`
/// along the tangent axes: 0 when both side voxels occlude, otherwise 3
/// minus the number of occluding side and diagonal voxels.
pub open spec fn corner_ao<'a>(
    chunk: ChunkVoxels,
    n: ChunkNeighborSet<'a>,
    p0: int,
    p1: int,
    p2: int,
    axis: int,
    du: int,
    dv: int,
) -> u8 {
    let ua = u_axis(axis);
    let va = v_axis(axis);
    let s1 = occludes_at(chunk, n, p0 + axis_off(0, ua, du), p1 + axis_off(1, ua, du), p2 + axis_off(2, ua, du));
    let s2 = occludes_at(chunk, n, p0 + axis_off(0, va, dv), p1 + axis_off(1, va, dv), p2 + axis_off(2, va, dv));
    let c = occludes_at(
        chunk,
        n,
        p0 + axis_off(0, ua, du) + axis_off(0, va, dv),
        p1 + axis_off(1, ua, du) + axis_off(1, va, dv),
        p2 + axis_off(2, ua, du) + axis_off(2, va, dv),
    );
    if s1 && s2 {
        0
    } else {
        (3 - ((if s1 { 1int } else { 0 }) + (if s2 { 1int } else { 0 }) + (if c { 1int } else { 0 }))) as u8
    }
}

/// A corner's AO level counts the occluding voxels around it: 3 with none,
/// one step darker for each occluding side or diagonal voxel, and 0 as soon
/// as both side voxels occlude, whatever the diagonal holds.
pub proof fn law_corner_ao_counts_occluders<'a>(
    chunk: ChunkVoxels,
    n: ChunkNeighborSet<'a>,
    p0: int,
    p1: int,
    p2: int,
    axis: int,
    du: int,
    dv: int,
)
    ensures
        ({
            let ua = u_axis(axis);
            let va = v_axis(axis);
            let s1 = occludes_at(chunk, n, p0 + axis_off(0, ua, du), p1 + axis_off(1, ua, du), p2 + axis_off(2, ua, du));
            let s2 = occludes_at(chunk, n, p0 + axis_off(0, va, dv), p1 + axis_off(1, va, dv), p2 + axis_off(2, va, dv));
            let c = occludes_at(
                chunk,
                n,
                p0 + axis_off(0, ua, du) + axis_off(0, va, dv),
                p1 + axis_off(1, ua, du) + axis_off(1, va, dv),
                p2 + axis_off(2, ua, du) + axis_off(2, va, dv),
            );
            let ao = corner_ao(chunk, n, p0, p1, p2, axis, du, dv);
            &&& ao <= 3
            &&& !s1 && !s2 && !c ==> ao == 3
            &&& s1 && s2 ==> ao == 0
            &&& !s1 && !s2 && c ==> ao == 2
            &&& (s1 != s2) && !c ==> ao == 2
            &&& (s1 != s2) && c ==> ao == 1
        }),
{
}

fn is_opaque_for_ao(chunk: &ChunkVoxels, neighbors: &ChunkNeighborSet<'_>, pos: [i32; 3]) -> (r: bool)
    ensures
        r == occludes_at(*chunk, *neighbors, pos[0] as int, pos[1] as int, pos[2] as int),
{
    let block = sample_with_halo(chunk, neighbors, pos[0], pos[1], pos[2]);
    block != 0 && !is_transparent_block(block)
}

fn compute_corner_ao(
    chunk: &ChunkVoxels,
    neighbors: &ChunkNeighborSet<'_>,
    face_pos: [i32; 3],
    axis: u8,
    du: i32,
    dv: i32,
) -> (ao: u8)
    requires
        axis < 3,
        -1 <= du <= 1,
        -1 <= dv <= 1,
        -1000 <= face_pos[0] <= 1000,
        -1000 <= face_pos[1] <= 1000,
        -1000 <= face_pos[2] <= 1000,
    ensures
        ao == corner_ao(*chunk, *neighbors, face_pos[0] as int, face_pos[1] as int, face_pos[2] as int, axis as int, du as int, dv as int),
        ao <= 3,
{
    let (u_ax, v_ax) = plane_axes(axis);
    let mut s1_pos = face_pos;
    s1_pos[u_ax] = s1_pos[u_ax] + du;
    let mut s2_pos = face_pos;
    s2_pos[v_ax] = s2_pos[v_ax] + dv;
    let mut c_pos = face_pos;
    c_pos[u_ax] = c_pos[u_ax] + du;
    c_pos[v_ax] = c_pos[v_ax] + dv;
    let side1 = is_opaque_for_ao(chunk, neighbors, s1_pos);
    let side2 = is_opaque_for_ao(chunk, neighbors, s2_pos);
    let corner = is_opaque_for_ao(chunk, neighbors, c_pos);
    if side1 && side2 {
        0
    } else {
        3 - ((side1 as u8) + (side2 as u8) + (corner as u8))
    }
}

/// Coordinate `c` of the AO sample point of corner `i` of a quad: one step
/// into the air along the face axis, at the corner's tangent position.
pub open spec fn ao_point(q: GreedyQuad, i: int, c: int) -> int {
    let ua = u_axis(q.axis as int);
    let va = v_axis(q.axis as int);
    if c == ua {
        q.origin[c] + (if i == 1 || i == 2 { q.size[0] as int } else { 0 })
    } else if c == va {
        q.origin[c] + (if i == 2 || i == 3 { q.size[1] as int } else { 0 })
    } else {
        q.origin[c] + (if q.positive_face { 1int } else { -1 })
    }
}

/// Tangent directions of corner `i`: (-1,-1), (+1,-1), (+1,+1), (-1,+1).
pub open spec fn ao_du(i: int) -> int {
    if i == 1 || i == 2 {
        1
    } else {
        -1
    }
}

pub open spec fn ao_dv(i: int) -> int {
    if i == 2 || i == 3 {
        1
    } else {
        -1
    }
}

pub open spec fn quad_corner_ao<'a>(chunk: ChunkVoxels, n: ChunkNeighborSet<'a>, q: GreedyQuad, i: int) -> u8 {
    corner_ao(chunk, n, ao_point(q, i, 0), ao_point(q, i, 1), ao_point(q, i, 2), q.axis as int, ao_du(i), ao_dv(i))
}

/// AO of the four corners of a quad, in packing order.
pub open spec fn quad_ao<'a>(chunk: ChunkVoxels, n: ChunkNeighborSet<'a>, q: GreedyQuad) -> [u8; 4] {
    [
        quad_corner_ao(chunk, n, q, 0),
        quad_corner_ao(chunk, n, q, 1),
        quad_corner_ao(chunk, n, q, 2),
        quad_corner_ao(chunk, n, q, 3),
    ]
}

/// A quad lying inside the chunk.
pub open spec fn quad_in_chunk(q: GreedyQuad) -> bool {
    &&& q.axis < 3
    &&& q.origin[q.axis as int] < 64
    &&& 1 <= q.size[0]
    &&& 1 <= q.size[1]
    &&& q.origin[u_axis(q.axis as int)] + q.size[0] <= 64
    &&& q.origin[v_axis(q.axis as int)] + q.size[1] <= 64
}

fn corner_ao_of_quad(chunk: &ChunkVoxels, neighbors: &ChunkNeighborSet<'_>, quad: &GreedyQuad, i: usize) -> (ao: u8)
    requires
        quad_in_chunk(*quad),
        i < 4,
    ensures
        ao == quad_corner_ao(*chunk, *neighbors, *quad, i as int),
{
    let (u_ax, v_ax) = plane_axes(quad.axis);
    let axis_idx = quad.axis as usize;
    let mut face_pos: [i32; 3] = [quad.origin[0] as i32, quad.origin[1] as i32, quad.origin[2] as i32];
    if quad.positive_face {
        face_pos[axis_idx] = face_pos[axis_idx] + 1;
    } else {
        face_pos[axis_idx] = face_pos[axis_idx] - 1;
    }
    let u_off: i32 = if i == 1 || i == 2 { quad.size[0] as i32 } else { 0 };
    let v_off: i32 = if i == 2 || i == 3 { quad.size[1] as i32 } else { 0 };
    let du: i32 = if i == 1 || i == 2 { 1 } else { -1 };
    let dv: i32 = if i == 2 || i == 3 { 1 } else { -1 };
    face_pos[u_ax] = quad.origin[u_ax] as i32 + u_off;
    face_pos[v_ax] = quad.origin[v_ax] as i32 + v_off;
    compute_corner_ao(chunk, neighbors, face_pos, quad.axis, du, dv)
}

fn compute_quad_ao(chunk: &ChunkVoxels, neighbors: &ChunkNeighborSet<'_>, quad: &GreedyQuad) -> (ao: [u8; 4])
    requires
        quad_in_chunk(*quad),
    ensures
        ao == quad_ao(*chunk, *neighbors, *quad),
{
    [
        corner_ao_of_quad(chunk, neighbors, quad, 0),
        corner_ao_of_quad(chunk, neighbors, quad, 1),
        corner_ao_of_quad(chunk, neighbors, quad, 2),
        corner_ao_of_quad(chunk, neighbors, quad, 3),
    ]
}

// ---------------------------------------------------------------------
// Greedy rectangle merging on one slice
// ---------------------------------------------------------------------

/// What two faces must share to be merged into one quad.
#[derive(Clone, Copy, Debug, PartialEq, Eq)]
pub struct MergeKey {
    pub axis: u8,
    pub positive_face: bool,
    pub block_id: u16,
    pub is_skirt: bool,
}

/// Index of cell `(u, v)` in a 64×64 slice mask (row-major in `v`).
pub open spec fn cell(u: int, v: int) -> int {
    v * 64 + u
}

pub open spec fn qu(q: GreedyQuad) -> int {
    q.origin[u_axis(q.axis as int)] as int
}

pub open spec fn qv(q: GreedyQuad) -> int {
    q.origin[v_axis(q.axis as int)] as int
}

pub open spec fn key_of(q: GreedyQuad) -> MergeKey {
    MergeKey { axis: q.axis, positive_face: q.positive_face, block_id: q.block_id, is_skirt: q.is_skirt }
}

/// The quad spans cell `(u, v)` of its slice.
pub open spec fn quad_covers(q: GreedyQuad, u: int, v: int) -> bool {
    qu(q) <= u < qu(q) + q.size[0] && qv(q) <= v < qv(q) + q.size[1]
}

pub open spec fn covered(qs: Seq<GreedyQuad>, u: int, v: int) -> bool {
    exists|k: int| 0 <= k < qs.len() && #[trigger] quad_covers(qs[k], u, v)
}

/// Cell `(u, v)` holds `key` in the mask and no quad of `qs` spans it yet.
pub open spec fn open_cell(m: Seq<Option<MergeKey>>, qs: Seq<GreedyQuad>, key: MergeKey, u: int, v: int) -> bool {
    &&& in_edge(u)
    &&& in_edge(v)
    &&& m[cell(u, v)] == Some(key)
    &&& !covered(qs, u, v)
}

/// Quad `j` of `qs` is the greedy choice given the quads before it: it starts
/// at the first (row-major) face cell not yet spanned, it is as wide as the
/// run of open cells with its key allows, and as tall as full rows of such
/// cells allow.
pub open spec fn greedy_step(m: Seq<Option<MergeKey>>, axis: u8, slice: int, qs: Seq<GreedyQuad>, j: int) -> bool {
    let q = qs[j];
    let prior = qs.take(j);
    let key = key_of(q);
    &&& q.axis == axis
    &&& q.origin[axis as int] == slice
    &&& 1 <= q.size[0] && qu(q) + q.size[0] <= 64
    &&& 1 <= q.size[1] && qv(q) + q.size[1] <= 64
    &&& forall|u: int, v: int|
        in_edge(u) && in_edge(v) && cell(u, v) < cell(qu(q), qv(q)) && (#[trigger] m[cell(u, v)]) is Some
            ==> covered(prior, u, v)
    &&& forall|du: int, dv: int|
        0 <= du < q.size[0] && 0 <= dv < q.size[1] ==> #[trigger] open_cell(m, prior, key, qu(q) + du, qv(q) + dv)
    &&& qu(q) + q.size[0] == 64 || !open_cell(m, prior, key, qu(q) + q.size[0], qv(q))
    &&& qv(q) + q.size[1] == 64 || exists|du: int|
        0 <= du < q.size[0] && !#[trigger] open_cell(m, prior, key, qu(q) + du, qv(q) + q.size[1])
}

/// `qs` is the greedy decomposition of the slice mask `m`: every quad is the
/// greedy choice after its predecessors, and every face cell is spanned.
pub open spec fn greedy_decomposition(m: Seq<Option<MergeKey>>, axis: u8, slice: int, qs: Seq<GreedyQuad>) -> bool {
    &&& forall|j: int| 0 <= j < qs.len() ==> #[trigger] greedy_step(m, axis, slice, qs, j)
    &&& forall|u: int, v: int| in_edge(u) && in_edge(v) && (#[trigger] m[cell(u, v)]) is Some ==> covered(qs, u, v)
}

proof fn lemma_covered_push(qs: Seq<GreedyQuad>, q: GreedyQuad)
    ensures
        forall|u: int, v: int| #[trigger] covered(qs.push(q), u, v) == (covered(qs, u, v) || quad_covers(q, u, v)),
{
    assert forall|u: int, v: int| #[trigger] covered(qs.push(q), u, v) == (covered(qs, u, v) || quad_covers(q, u, v)) by {
        if covered(qs, u, v) {
            let k = choose|k: int| 0 <= k < qs.len() && #[trigger] quad_covers(qs[k], u, v);
            assert(qs.push(q)[k] == qs[k]);
        }
        if quad_covers(q, u, v) {
            assert(qs.push(q)[qs.len() as int] == q);
        }
        if covered(qs.push(q), u, v) {
            let k = choose|k: int| 0 <= k < qs.push(q).len() && #[trigger] quad_covers(qs.push(q)[k], u, v);
            if k < qs.len() {
                assert(qs.push(q)[k] == qs[k]);
            }
        }
    }
}

proof fn lemma_greedy_step_push(m: Seq<Option<MergeKey>>, axis: u8, slice: int, qs: Seq<GreedyQuad>, q: GreedyQuad, j: int)
    requires
        0 <= j < qs.len(),
        greedy_step(m, axis, slice, qs, j),
    ensures
        greedy_step(m, axis, slice, qs.push(q), j),
{
    assert(qs.push(q).take(j) =~= qs.take(j));
    assert(qs.push(q)[j] == qs[j]);
}

fn cell_is(c: &Option<MergeKey>, key: MergeKey) -> (r: bool)
    ensures
        r == (*c == Some(key)),
{
    match c {
        Some(k) => k.axis == key.axis && k.positive_face == key.positive_face && k.block_id == key.block_id
            && k.is_skirt == key.is_skirt,
        None => false,
    }
}

/// Cells `u..u+width` of row `v` all hold `key`.
fn row_matches(mask: &Vec<Option<MergeKey>>, key: MergeKey, u: usize, v: usize, width: usize) -> (r: bool)
    requires
        mask@.len() == 4096,
        u + width <= 64,
        v < 64,
    ensures
        r == forall|du: int| 0 <= du < width ==> #[trigger] mask@[cell(u + du, v as int)] == Some(key),
{
    let mut du: usize = 0;
    while du < width
        invariant
            mask@.len() == 4096,
            u + width <= 64,
            v < 64,
            du <= width,
            forall|d: int| 0 <= d < du ==> #[trigger] mask@[cell(u + d, v as int)] == Some(key),
        decreases width - du,
    {
        if !cell_is(&mask[v * 64 + u + du], key) {
            proof {
                let d = du as int;
                assert(mask@[cell(u + d, v as int)] != Some(key));
            }
            return false;
        }
        du += 1;
    }
    true
}

/// Clears the `width × height` rectangle at `(u, v)`.
fn clear_rect(mask: &mut Vec<Option<MergeKey>>, u: usize, v: usize, width: usize, height: usize)
    requires
        old(mask)@.len() == 4096,
        u + width <= 64,
        v + height <= 64,
    ensures
        final(mask)@.len() == 4096,
        forall|x: int, y: int|
            in_edge(x) && in_edge(y) ==> #[trigger] final(mask)@[cell(x, y)] == if u <= x < u + width && v <= y < v
                + height {
                None
            } else {
                old(mask)@[cell(x, y)]
            },
{
    let mut dv: usize = 0;
    while dv < height
        invariant
            mask@.len() == 4096,
            u + width <= 64,
            v + height <= 64,
            dv <= height,
            forall|x: int, y: int|
                in_edge(x) && in_edge(y) ==> #[trigger] mask@[cell(x, y)] == if u <= x < u + width && v <= y < v + dv {
                    None
                } else {
                    old(mask)@[cell(x, y)]
                },
        decreases height - dv,
    {
        let mut du: usize = 0;
        while du < width
            invariant
                mask@.len() == 4096,
                u + width <= 64,
                v + height <= 64,
                dv < height,
                du <= width,
                forall|x: int, y: int|
                    in_edge(x) && in_edge(y) ==> #[trigger] mask@[cell(x, y)] == if (u <= x < u + width && v <= y < v
                        + dv) || (u <= x < u + du && y == v + dv) {
                        None
                    } else {
                        old(mask)@[cell(x, y)]
                    },
            decreases width - du,
        {
            let idx = (v + dv) * 64 + u + du;
            mask.set(idx, None);
            proof {
                assert forall|x: int, y: int| in_edge(x) && in_edge(y) && cell(x, y) == idx implies x == u + du && y
                    == v + dv by {
                    assert(cell(x, y) == cell((u + du) as int, (v + dv) as int));
                }
            }
            du += 1;
        }
        dv += 1;
    }
}

/// Spec cell coordinates of `(u, v)` on `slice` of `axis`.
pub open spec fn cell_coords_ok(c: [u8; 3], axis: u8, slice: int, u: int, v: int) -> bool {
    &&& c[axis as int] == slice
    &&& c[u_axis(axis as int)] == u
    &&& c[v_axis(axis as int)] == v
}

fn coords_for_cell(axis: u8, slice: usize, u: usize, v: usize) -> (c: [u8; 3])
    requires
        axis < 3,
        slice < 64,
        u < 64,
        v < 64,
    ensures
        cell_coords_ok(c, axis, slice as int, u as int, v as int),
{
    let mut coords = [0u8; 3];
    let (u_ax, v_ax) = plane_axes(axis);
    coords[axis as usize] = slice as u8;
    coords[u_ax] = u as u8;
    coords[v_ax] = v as u8;
    coords
}

/// Every key in the mask belongs to faces of `axis`.
pub open spec fn mask_on_axis(m: Seq<Option<MergeKey>>, axis: u8) -> bool {
    forall|i: int| 0 <= i < m.len() && (#[trigger] m[i]) is Some ==> m[i]->0.axis == axis
}

/// Merges the face mask of one slice into quads, appended to `quads`; the
/// mask is left empty.
#[verifier::rlimit(40)]
fn greedy_merge_mask(axis: u8, slice: usize, mask: &mut Vec<Option<MergeKey>>, quads: &mut Vec<GreedyQuad>)
    requires
        axis < 3,
        slice < 64,
        old(mask)@.len() == 4096,
        mask_on_axis(old(mask)@, axis),
        old(quads).len() + 4096 <= usize::MAX,
    ensures
        final(quads)@.take(old(quads).len() as int) == old(quads)@,
        old(quads).len() <= final(quads).len() <= old(quads).len() + 4096,
        final(mask)@.len() == 4096,
        greedy_decomposition(old(mask)@, axis, slice as int, final(quads)@.skip(old(quads).len() as int)),
        forall|j: int| old(quads).len() <= j < final(quads).len() ==> quad_in_chunk(#[trigger] final(quads)@[j]),
{
    let ghost m = mask@;
    let ghost base = quads@;
    let base_len = quads.len();
    let mut v: usize = 0;
    while v < 64
        invariant
            axis < 3,
            slice < 64,
            m.len() == 4096,
            mask_on_axis(m, axis),
            base_len == base.len(),
            base_len + 4096 <= usize::MAX,
            v <= 64,
            mask@.len() == 4096,
            quads@.take(base_len as int) == base,
            base_len <= quads.len() <= base_len + v * 64,
            forall|x: int, y: int|
                in_edge(x) && in_edge(y) ==> #[trigger] mask@[cell(x, y)] == if covered(quads@.skip(base_len as int), x, y) {
                    None
                } else {
                    m[cell(x, y)]
                },
            forall|j: int|
                0 <= j < quads@.skip(base_len as int).len() ==> #[trigger] greedy_step(m, axis, slice as int, quads@.skip(base_len as int), j),
            forall|x: int, y: int|
                in_edge(x) && in_edge(y) && cell(x, y) < cell(0, v as int) && (#[trigger] m[cell(x, y)]) is Some
                    ==> covered(quads@.skip(base_len as int), x, y),
            forall|j: int| base_len <= j < quads.len() ==> quad_in_chunk(#[trigger] quads@[j]),
        decreases 64 - v,
    {
        let mut u: usize = 0;
        while u < 64
            invariant
                axis < 3,
                slice < 64,
                m.len() == 4096,
                mask_on_axis(m, axis),
                base_len == base.len(),
                base_len + 4096 <= usize::MAX,
                v < 64,
                u <= 64,
                mask@.len() == 4096,
                quads@.take(base_len as int) == base,
                base_len <= quads.len() <= base_len + v * 64 + u,
                forall|x: int, y: int|
                    in_edge(x) && in_edge(y) ==> #[trigger] mask@[cell(x, y)] == if covered(quads@.skip(base_len as int), x, y) {
                        None
                    } else {
                        m[cell(x, y)]
                    },
                forall|j: int|
                    0 <= j < quads@.skip(base_len as int).len() ==> #[trigger] greedy_step(m, axis, slice as int, quads@.skip(base_len as int), j),
                forall|x: int, y: int|
                    in_edge(x) && in_edge(y) && cell(x, y) < cell(u as int, v as int) && (#[trigger] m[cell(x, y)]) is Some
                        ==> covered(quads@.skip(base_len as int), x, y),
                forall|j: int| base_len <= j < quads.len() ==> quad_in_chunk(#[trigger] quads@[j]),
            decreases 64 - u,
        {
            let idx = v * 64 + u;
            let ghost qs = quads@.skip(base_len as int);
            match mask[idx] {
                None => {
                    proof {
                        assert(mask@[cell(u as int, v as int)] is None);
                    }
                },
                Some(key) => {
                    proof {
                        assert(mask@[cell(u as int, v as int)] == Some(key));
                        assert(!covered(qs, u as int, v as int));
                        assert(m[cell(u as int, v as int)] == Some(key));
                        assert(key.axis == axis);
                    }
                    let mut width: usize = 1;
                    while u + width < 64 && cell_is(&mask[idx + width], key)
                        invariant
                            mask@.len() == 4096,
                            u < 64,
                            v < 64,
                            idx == cell(u as int, v as int),
                            1 <= width,
                            u + width <= 64,
                            forall|du: int| 0 <= du < width ==> #[trigger] mask@[cell(u + du, v as int)] == Some(key),
                        decreases 64 - u - width,
                    {
                        width += 1;
                    }
                    let mut height: usize = 1;
                    while v + height < 64 && row_matches(mask, key, u, v + height, width)
                        invariant
                            mask@.len() == 4096,
                            u < 64,
                            v < 64,
                            u + width <= 64,
                            1 <= height,
                            v + height <= 64,
                            forall|du: int, dv: int|
                                0 <= du < width && 0 <= dv < height ==> #[trigger] mask@[cell(u + du, v + dv)] == Some(key),
                        decreases 64 - v - height,
                    {
                        height += 1;
                    }
                    let ghost old_mask = mask@;
                    clear_rect(mask, u, v, width, height);
                    let origin = coords_for_cell(axis, slice, u, v);
                    let quad = GreedyQuad {
                        axis,
                        positive_face: key.positive_face,
                        origin,
                        size: [width as u8, height as u8],
                        block_id: key.block_id,
                        is_skirt: key.is_skirt,
                    };
                    proof {
                        assert(qu(quad) == u);
                        assert(qv(quad) == v);
                        assert(key_of(quad) == key);
                        lemma_covered_push(qs, quad);
                        assert(qs.push(quad).take(qs.len() as int) =~= qs);
                        // the new quad is the greedy choice
                        assert forall|du: int, dv: int|
                            0 <= du < quad.size[0] && 0 <= dv < quad.size[1] implies #[trigger] open_cell(m, qs, key, qu(quad) + du, qv(quad) + dv) by {
                            assert(old_mask[cell(u + du, v + dv)] == Some(key));
                        }
                        if u + width < 64 {
                            assert(old_mask[cell(u + width, v as int)] != Some(key));
                        }
                        if v + height < 64 {
                            let du = choose|du: int| 0 <= du < width && #[trigger] old_mask[cell(u + du, (v + height) as int)] != Some(key);
                            assert(!open_cell(m, qs, key, u + du, (v + height) as int));
                        }
                        assert(greedy_step(m, axis, slice as int, qs.push(quad), qs.len() as int));
                        assert forall|j: int| 0 <= j < qs.len() implies #[trigger] greedy_step(m, axis, slice as int, qs.push(quad), j) by {
                            lemma_greedy_step_push(m, axis, slice as int, qs, quad, j);
                        }
                        assert forall|x: int, y: int|
                            in_edge(x) && in_edge(y) implies #[trigger] mask@[cell(x, y)] == if covered(qs.push(quad), x, y) {
                                None
                            } else {
                                m[cell(x, y)]
                            } by {
                            if quad_covers(quad, x, y) {
                                assert(u <= x < u + width && v <= y < v + height);
                            }
                        }
                        assert(quad_covers(quad, u as int, v as int));
                    }
                    let ghost pre = quads@;
                    quads.push(quad);
                    proof {
                        assert(pre.skip(base_len as int) == qs);
                        assert(quads@.skip(base_len as int) =~= qs.push(quad));
                        assert(quads@.take(base_len as int) =~= base);
                    }
                },
            }
            u += 1;
        }
        v += 1;
    }
    proof {
        let qs = quads@.skip(base_len as int);
        assert forall|x: int, y: int| in_edge(x) && in_edge(y) && (#[trigger] m[cell(x, y)]) is Some implies covered(qs, x, y) by {
            assert(cell(x, y) < cell(0, 64));
        }
    }
}

// ---------------------------------------------------------------------
// Face masks of whole slices and of whole face directions
// ---------------------------------------------------------------------

/// Coordinate `c` of cell `(u, v)` on `slice` of `axis`.
pub open spec fn slice_coord(axis: int, slice: int, u: int, v: int, c: int) -> int {
    if c == axis {
        slice
    } else if c == u_axis(axis) {
        u
    } else {
        v
    }
}

/// Step from a voxel to the neighbour its face looks at.
pub open spec fn face_step(axis: int, positive_face: bool, c: int) -> int {
    if c == axis {
        if positive_face { 1 } else { -1 }
    } else {
        0
    }
}

/// The merge key of cell `(u, v)`: present when the voxel there is solid and
/// its face towards `positive_face` is visible against the sampled neighbour.
pub open spec fn face_key<'a>(
    chunk: ChunkVoxels,
    n: ChunkNeighborSet<'a>,
    axis: u8,
    positive_face: bool,
    is_skirt: bool,
    slice: int,
    u: int,
    v: int,
) -> Option<MergeKey> {
    let x = slice_coord(axis as int, slice, u, v, 0);
    let y = slice_coord(axis as int, slice, u, v, 1);
    let z = slice_coord(axis as int, slice, u, v, 2);
    let b = chunk.block_at(x, y, z);
    let nb = sample(
        chunk,
        n,
        x + face_step(axis as int, positive_face, 0),
        y + face_step(axis as int, positive_face, 1),
        z + face_step(axis as int, positive_face, 2),
    );
    if b != 0 && face_visible(b, nb) {
        Some(MergeKey { axis, positive_face, block_id: b as u16, is_skirt })
    } else {
        None
    }
}

/// The slice on the chunk border that faces towards `positive_face`.
pub open spec fn boundary_slice(positive_face: bool) -> int {
    if positive_face {
        63
    } else {
        0
    }
}

/// Face mask of one slice; skirt passes only use the border slice.
pub open spec fn slice_mask<'a>(
    chunk: ChunkVoxels,
    n: ChunkNeighborSet<'a>,
    axis: u8,
    positive_face: bool,
    is_skirt: bool,
    slice: int,
) -> Seq<Option<MergeKey>> {
    Seq::new(
        4096,
        |i: int|
            if is_skirt && slice != boundary_slice(positive_face) {
                None
            } else {
                face_key(chunk, n, axis, positive_face, is_skirt, slice, i % 64, i / 64)
            },
    )
}

/// `qs` splits at `cuts` into the greedy decompositions of slices 0..64.
pub open spec fn direction_split<'a>(
    chunk: ChunkVoxels,
    n: ChunkNeighborSet<'a>,
    axis: u8,
    positive_face: bool,
    is_skirt: bool,
    qs: Seq<GreedyQuad>,
    cuts: Seq<int>,
) -> bool {
    &&& cuts.len() == 65
    &&& cuts[0] == 0
    &&& cuts[64] == qs.len()
    &&& forall|s: int| 0 <= s < 64 ==> 0 <= #[trigger] cuts[s] <= cuts[s + 1] <= qs.len()
    &&& forall|s: int|
        0 <= s < 64 ==> #[trigger] greedy_decomposition(
            slice_mask(chunk, n, axis, positive_face, is_skirt, s),
            axis,
            s,
            qs.subrange(cuts[s], cuts[s + 1]),
        )
}

/// `qs` is the slice-by-slice greedy decomposition of one face direction.
pub open spec fn direction_quads<'a>(
    chunk: ChunkVoxels,
    n: ChunkNeighborSet<'a>,
    axis: u8,
    positive_face: bool,
    is_skirt: bool,
    qs: Seq<GreedyQuad>,
) -> bool {
    exists|cuts: Seq<int>| #[trigger] direction_split(chunk, n, axis, positive_face, is_skirt, qs, cuts)
}

proof fn lemma_cell_decompose(i: int)
    requires
        0 <= i < 4096,
    ensures
        in_edge(i % 64),
        in_edge(i / 64),
        cell(i % 64, i / 64) == i,
{
    assert(0 <= i % 64 < 64 && 0 <= i / 64 < 64 && (i / 64) * 64 + i % 64 == i) by (nonlinear_arith)
        requires 0 <= i < 4096;
}

proof fn lemma_cell_split(u: int, v: int)
    requires
        in_edge(u),
        in_edge(v),
    ensures
        cell(u, v) % 64 == u,
        cell(u, v) / 64 == v,
        0 <= cell(u, v) < 4096,
{
    vstd::arithmetic::div_mod::lemma_fundamental_div_mod_converse(cell(u, v), 64, v, u);
}

/// Fills `mask` with the face mask of `slice`.
fn fill_slice_mask(
    chunk: &ChunkVoxels,
    neighbors: &ChunkNeighborSet<'_>,
    axis: u8,
    positive_face: bool,
    is_skirt: bool,
    slice: usize,
    mask: &mut Vec<Option<MergeKey>>,
)
    requires
        axis < 3,
        slice < 64,
        old(mask)@.len() == 4096,
        !(is_skirt && slice as int != boundary_slice(positive_face)),
    ensures
        final(mask)@ == slice_mask(*chunk, *neighbors, axis, positive_face, is_skirt, slice as int),
{
    let mut v: usize = 0;
    while v < 64
        invariant
            axis < 3,
            slice < 64,
            v <= 64,
            mask@.len() == 4096,
            forall|x: int, y: int|
                in_edge(x) && in_edge(y) && cell(x, y) < cell(0, v as int) ==> #[trigger] mask@[cell(x, y)] == face_key(
                    *chunk,
                    *neighbors,
                    axis,
                    positive_face,
                    is_skirt,
                    slice as int,
                    x,
                    y,
                ),
        decreases 64 - v,
    {
        let mut u: usize = 0;
        while u < 64
            invariant
                axis < 3,
                slice < 64,
                v < 64,
                u <= 64,
                mask@.len() == 4096,
                forall|x: int, y: int|
                    in_edge(x) && in_edge(y) && cell(x, y) < cell(u as int, v as int) ==> #[trigger] mask@[cell(x, y)]
                        == face_key(*chunk, *neighbors, axis, positive_face, is_skirt, slice as int, x, y),
            decreases 64 - u,
        {
            let coords = coords_for_cell(axis, slice, u, v);
            let current_block = chunk.block(coords[0], coords[1], coords[2]);
            let x = coords[0] as i32;
            let y = coords[1] as i32;
            let z = coords[2] as i32;
            let step: i32 = if positive_face { 1 } else { -1 };
            let neighbor_block = if axis == 0 {
                sample_with_halo(chunk, neighbors, x + step, y, z)
            } else if axis == 1 {
                sample_with_halo(chunk, neighbors, x, y + step, z)
            } else {
                sample_with_halo(chunk, neighbors, x, y, z + step)
            };
            let entry = if current_block != 0 && face_visible_against(current_block, neighbor_block) {
                Some(MergeKey { axis, positive_face, block_id: current_block as u16, is_skirt })
            } else {
                None
            };
            proof {
                assert(x == slice_coord(axis as int, slice as int, u as int, v as int, 0));
                assert(y == slice_coord(axis as int, slice as int, u as int, v as int, 1));
                assert(z == slice_coord(axis as int, slice as int, u as int, v as int, 2));
                assert(entry == face_key(*chunk, *neighbors, axis, positive_face, is_skirt, slice as int, u as int, v as int));
            }
            mask.set(v * 64 + u, entry);
            proof {
                assert forall|x: int, y: int| in_edge(x) && in_edge(y) && cell(x, y) == cell(u as int, v as int) implies x
                    == u && y == v by {
                    lemma_cell_split(x, y);
                    lemma_cell_split(u as int, v as int);
                }
            }
            u += 1;
        }
        v += 1;
    }
    proof {
        let sm = slice_mask(*chunk, *neighbors, axis, positive_face, is_skirt, slice as int);
        assert forall|i: int| 0 <= i < 4096 implies mask@[i] == sm[i] by {
            lemma_cell_decompose(i);
            assert(cell(i % 64, i / 64) < cell(0, 64));
        }
        assert(mask@ =~= sm);
    }
}

proof fn lemma_empty_mask_decomposition(m: Seq<Option<MergeKey>>, axis: u8, slice: int)
    requires
        m.len() == 4096,
        forall|i: int| 0 <= i < 4096 ==> (#[trigger] m[i]) is None,
    ensures
        greedy_decomposition(m, axis, slice, Seq::<GreedyQuad>::empty()),
{
    assert forall|u: int, v: int| in_edge(u) && in_edge(v) implies !((#[trigger] m[cell(u, v)]) is Some) by {
        lemma_cell_split(u, v);
    }
}

/// Emits the greedy quads of every slice of one face direction.
fn emit_quads_for_axis(
    chunk: &ChunkVoxels,
    neighbors: &ChunkNeighborSet<'_>,
    axis: u8,
    positive_face: bool,
    is_skirt: bool,
    quads: &mut Vec<GreedyQuad>,
)
    requires
        axis < 3,
        old(quads).len() + 64 * 4096 <= usize::MAX,
    ensures
        final(quads)@.take(old(quads).len() as int) == old(quads)@,
        old(quads).len() <= final(quads).len() <= old(quads).len() + 64 * 4096,
        direction_quads(*chunk, *neighbors, axis, positive_face, is_skirt, final(quads)@.skip(old(quads).len() as int)),
        forall|j: int| old(quads).len() <= j < final(quads).len() ==> quad_in_chunk(#[trigger] final(quads)@[j]),
{
    let ghost base = quads@;
    let base_len = quads.len();
    let boundary: usize = if positive_face { 63 } else { 0 };
    let mut mask: Vec<Option<MergeKey>> = Vec::new();
    let mut i: usize = 0;
    while i < 4096
        invariant
            i <= 4096,
            mask@.len() == i,
        decreases 4096 - i,
    {
        mask.push(None);
        i += 1;
    }
    let ghost mut cuts: Seq<int> = seq![0int];
    let mut slice: usize = 0;
    while slice < 64
        invariant
            axis < 3,
            slice <= 64,
            boundary as int == boundary_slice(positive_face),
            base_len == base.len(),
            base_len + 64 * 4096 <= usize::MAX,
            mask@.len() == 4096,
            quads@.take(base_len as int) == base,
            base_len <= quads.len() <= base_len + slice * 4096,
            cuts.len() == slice + 1,
            cuts[0] == 0,
            cuts[slice as int] == quads.len() - base_len,
            forall|s: int| 0 <= s < slice ==> 0 <= #[trigger] cuts[s] <= cuts[s + 1],
            forall|s: int| 0 <= s <= slice ==> 0 <= #[trigger] cuts[s] <= quads.len() - base_len,
            forall|s: int|
                0 <= s < slice ==> #[trigger] greedy_decomposition(
                    slice_mask(*chunk, *neighbors, axis, positive_face, is_skirt, s),
                    axis,
                    s,
                    quads@.skip(base_len as int).subrange(cuts[s], cuts[s + 1]),
                ),
            forall|j: int| base_len <= j < quads.len() ==> quad_in_chunk(#[trigger] quads@[j]),
        decreases 64 - slice,
    {
        let ghost pre = quads@;
        let pre_len = quads.len();
        let ghost sm = slice_mask(*chunk, *neighbors, axis, positive_face, is_skirt, slice as int);
        if is_skirt && slice != boundary {
            proof {
                assert forall|i: int| 0 <= i < 4096 implies (#[trigger] sm[i]) is None by {}
                lemma_empty_mask_decomposition(sm, axis, slice as int);
                assert(quads@.skip(base_len as int).subrange(pre_len - base_len, pre_len - base_len) =~= Seq::<GreedyQuad>::empty());
            }
        } else {
            fill_slice_mask(chunk, neighbors, axis, positive_face, is_skirt, slice, &mut mask);
            proof {
                assert(mask_on_axis(mask@, axis));
            }
            greedy_merge_mask(axis, slice, &mut mask, quads);
            proof {
                let dir_old = pre.skip(base_len as int);
                let dir_new = quads@.skip(base_len as int);
                assert(quads@.take(pre_len as int) == pre);
                assert forall|j: int| base_len <= j < quads.len() implies quad_in_chunk(#[trigger] quads@[j]) by {
                    if j < pre_len {
                        assert(quads@.take(pre_len as int)[j] == quads@[j]);
                        assert(quad_in_chunk(pre[j]));
                    }
                }
                assert forall|s: int| 0 <= s < slice implies #[trigger] dir_new.subrange(cuts[s], cuts[s + 1])
                    == dir_old.subrange(cuts[s], cuts[s + 1]) by {
                    assert(dir_new.subrange(cuts[s], cuts[s + 1]) =~= dir_old.subrange(cuts[s], cuts[s + 1]));
                }
                assert(dir_new.subrange(pre_len - base_len, quads.len() - base_len) =~= quads@.skip(pre_len as int));
                assert(quads@.take(base_len as int) =~= base);
            }
        }
        proof {
            let ghost old_cuts = cuts;
            cuts = cuts.push(quads.len() - base_len);
            assert forall|s: int| 0 <= s < slice implies #[trigger] cuts[s] == old_cuts[s] && cuts[s + 1] == old_cuts[s + 1] by {}
        }
        slice += 1;
    }
    proof {
        let dir = quads@.skip(base_len as int);
        assert(direction_split(*chunk, *neighbors, axis, positive_face, is_skirt, dir, cuts));
    }
}

// ---------------------------------------------------------------------
// Whole-chunk mesh
// ---------------------------------------------------------------------

/// Face axis of emission pass `k` (0..6): each axis negative then positive.
pub open spec fn pass_axis(k: int) -> u8 {
    if k < 2 {
        0
    } else if k < 4 {
        1
    } else {
        2
    }
}

pub open spec fn pass_positive(k: int) -> bool {
    k == 1 || k == 3 || k == 5
}

/// `qs` splits at `cuts` into the six face directions, in emission order.
pub open spec fn mesh_split<'a>(chunk: ChunkVoxels, n: ChunkNeighborSet<'a>, qs: Seq<GreedyQuad>, cuts: Seq<int>) -> bool {
    &&& cuts.len() == 7
    &&& cuts[0] == 0
    &&& cuts[6] == qs.len()
    &&& forall|k: int| 0 <= k < 6 ==> 0 <= #[trigger] cuts[k] <= cuts[k + 1] <= qs.len()
    &&& forall|k: int|
        0 <= k < 6 ==> #[trigger] direction_quads(chunk, n, pass_axis(k), pass_positive(k), false, qs.subrange(cuts[k], cuts[k + 1]))
}

/// The quads of a chunk mesh: the greedy decomposition of every slice of
/// every face direction, directions in order -X, +X, -Y, +Y, -Z, +Z.
pub open spec fn greedy_mesh_quads<'a>(chunk: ChunkVoxels, n: ChunkNeighborSet<'a>, qs: Seq<GreedyQuad>) -> bool {
    exists|cuts: Seq<int>| #[trigger] mesh_split(chunk, n, qs, cuts)
}

/// Packed vertices of a quad sequence, four per quad with their AO.
pub open spec fn mesh_vertices<'a>(chunk: ChunkVoxels, n: ChunkNeighborSet<'a>, qs: Seq<GreedyQuad>) -> Seq<PackedVertex>
    decreases qs.len(),
{
    if qs.len() == 0 {
        seq![]
    } else {
        mesh_vertices(chunk, n, qs.drop_last()) + quad_vertices(qs.last(), quad_ao(chunk, n, qs.last()))
    }
}

/// Triangle indices of a quad sequence, six per quad.
pub open spec fn mesh_indices<'a>(chunk: ChunkVoxels, n: ChunkNeighborSet<'a>, qs: Seq<GreedyQuad>) -> Seq<u32>
    decreases qs.len(),
{
    if qs.len() == 0 {
        seq![]
    } else {
        mesh_indices(chunk, n, qs.drop_last()) + quad_indices(quad_ao(chunk, n, qs.last()), (4 * (qs.len() - 1)) as u32)
    }
}

/// The face plane of a quad along its axis.
pub open spec fn quad_plane(q: GreedyQuad) -> int {
    q.origin[q.axis as int] + (if q.positive_face { 1int } else { 0 })
}

/// Lower corner of a quad's box, coordinate `c`; skirts extend one voxel
/// behind a negative face.
pub open spec fn quad_min(q: GreedyQuad, c: int) -> int {
    if c == q.axis {
        if q.is_skirt && !q.positive_face { quad_plane(q) - 1 } else { quad_plane(q) }
    } else {
        q.origin[c] as int
    }
}

/// Upper corner of a quad's box, coordinate `c`; skirts extend one voxel
/// beyond a positive face.
pub open spec fn quad_max(q: GreedyQuad, c: int) -> int {
    if c == q.axis {
        if q.is_skirt && q.positive_face { quad_plane(q) + 1 } else { quad_plane(q) }
    } else if c == u_axis(q.axis as int) {
        q.origin[c] + q.size[0]
    } else {
        q.origin[c] + q.size[1]
    }
}

pub open spec fn min_int(a: int, b: int) -> int {
    if a <= b { a } else { b }
}

pub open spec fn max_int(a: int, b: int) -> int {
    if a >= b { a } else { b }
}

pub open spec fn bounds_min(qs: Seq<GreedyQuad>, c: int) -> int
    decreases qs.len(),
{
    if qs.len() == 0 {
        i32::MAX as int
    } else {
        min_int(bounds_min(qs.drop_last(), c), quad_min(qs.last(), c))
    }
}

pub open spec fn bounds_max(qs: Seq<GreedyQuad>, c: int) -> int
    decreases qs.len(),
{
    if qs.len() == 0 {
        i32::MIN as int
    } else {
        max_int(bounds_max(qs.drop_last(), c), quad_max(qs.last(), c))
    }
}

/// Box corner of a whole mesh along `c`; zero for an empty mesh.
pub open spec fn mesh_aabb_min(qs: Seq<GreedyQuad>, c: int) -> int {
    if qs.len() == 0 { 0 } else { bounds_min(qs, c) }
}

pub open spec fn mesh_aabb_max(qs: Seq<GreedyQuad>, c: int) -> int {
    if qs.len() == 0 { 0 } else { bounds_max(qs, c) }
}

/// `mesh` is the packing of `qs`.
pub open spec fn mesh_of_quads<'a>(chunk: ChunkVoxels, n: ChunkNeighborSet<'a>, qs: Seq<GreedyQuad>, mesh: PackedMesh) -> bool {
    &&& mesh.vertices@ == mesh_vertices(chunk, n, qs)
    &&& mesh.indices@ == mesh_indices(chunk, n, qs)
    &&& mesh.quad_count == qs.len()
    &&& forall|c: int| 0 <= c < 3 ==> mesh.aabb_min[c] == mesh_aabb_min(qs, c) && mesh.aabb_max[c] == mesh_aabb_max(qs, c)
}

/// The voxel-space box of one quad.
fn quad_bounds(quad: &GreedyQuad) -> (r: ([i32; 3], [i32; 3]))
    requires
        quad_in_chunk(*quad),
    ensures
        forall|c: int| 0 <= c < 3 ==> r.0[c] == quad_min(*quad, c) && r.1[c] == quad_max(*quad, c),
{
    let axis = quad.axis as usize;
    let (u_ax, v_ax) = plane_axes(quad.axis);
    let mut min: [i32; 3] = [quad.origin[0] as i32, quad.origin[1] as i32, quad.origin[2] as i32];
    let mut max: [i32; 3] = [quad.origin[0] as i32, quad.origin[1] as i32, quad.origin[2] as i32];
    min[u_ax] = quad.origin[u_ax] as i32;
    max[u_ax] = quad.origin[u_ax] as i32 + quad.size[0] as i32;
    min[v_ax] = quad.origin[v_ax] as i32;
    max[v_ax] = quad.origin[v_ax] as i32 + quad.size[1] as i32;
    let plane = quad.origin[axis] as i32 + if quad.positive_face { 1 } else { 0 };
    min[axis] = plane;
    max[axis] = plane;
    if quad.is_skirt {
        if quad.positive_face {
            max[axis] = plane + 1;
        } else {
            min[axis] = plane - 1;
        }
    }
    (min, max)
}

/// Builds the packed mesh of a chunk: greedy quads of all six face
/// directions, each packed with per-corner ambient occlusion.
pub fn build_greedy_mesh(chunk: &ChunkVoxels, neighbors: &ChunkNeighborSet<'_>, dirty: &MeshDirtyRecord) -> (mesh: PackedMesh)
    ensures
        exists|qs: Seq<GreedyQuad>|
            #[trigger] greedy_mesh_quads(*chunk, *neighbors, qs) && mesh_of_quads(*chunk, *neighbors, qs, mesh),
{
    let _ = dirty;
    let mut quads: Vec<GreedyQuad> = Vec::new();
    let ghost mut cuts: Seq<int> = seq![0int];
    let mut axis: u8 = 0;
    while axis < 3
        invariant
            axis <= 3,
            quads.len() <= axis as int * 2 * 64 * 4096,
            cuts.len() == 2 * axis + 1,
            cuts[0] == 0,
            cuts[2 * axis as int] == quads.len(),
            forall|k: int| 0 <= k <= 2 * axis ==> 0 <= #[trigger] cuts[k] <= quads.len(),
            forall|k: int| 0 <= k < 2 * axis ==> #[trigger] cuts[k] <= cuts[k + 1],
            forall|k: int|
                0 <= k < 2 * axis ==> #[trigger] direction_quads(*chunk, *neighbors, pass_axis(k), pass_positive(k), false, quads@.subrange(cuts[k], cuts[k + 1])),
            forall|j: int| 0 <= j < quads.len() ==> quad_in_chunk(#[trigger] quads@[j]),
        decreases 3 - axis,
    {
        let ghost mut step_quads = quads@;
        let ghost mut step_cuts = cuts;
        let mut pass: u8 = 0;
        while pass < 2
            invariant
                axis < 3,
                pass <= 2,
                quads.len() <= (2 * axis as int + pass as int) * 64 * 4096,
                cuts.len() == 2 * axis + pass + 1,
                cuts[0] == 0,
                cuts[2 * axis + pass] == quads.len(),
                forall|k: int| 0 <= k <= 2 * axis + pass ==> 0 <= #[trigger] cuts[k] <= quads.len(),
                forall|k: int| 0 <= k < 2 * axis + pass ==> #[trigger] cuts[k] <= cuts[k + 1],
                forall|k: int|
                    0 <= k < 2 * axis + pass ==> #[trigger] direction_quads(*chunk, *neighbors, pass_axis(k), pass_positive(k), false, quads@.subrange(cuts[k], cuts[k + 1])),
                forall|j: int| 0 <= j < quads.len() ==> quad_in_chunk(#[trigger] quads@[j]),
            decreases 2 - pass,
        {
            let ghost pre = quads@;
            let pre_len = quads.len();
            let positive = pass == 1;
            emit_quads_for_axis(chunk, neighbors, axis, positive, false, &mut quads);
            proof {
                let k_new = 2 * axis + pass;
                assert(pass_axis(k_new as int) == axis);
                assert(pass_positive(k_new as int) == positive);
                assert forall|k: int| 0 <= k < k_new implies #[trigger] quads@.subrange(cuts[k], cuts[k + 1])
                    == pre.subrange(cuts[k], cuts[k + 1]) by {
                    assert(quads@.subrange(cuts[k], cuts[k + 1]) =~= pre.subrange(cuts[k], cuts[k + 1]));
                }
                assert(quads@.subrange(pre_len as int, quads.len() as int) =~= quads@.skip(pre_len as int));
                assert forall|j: int| 0 <= j < quads.len() implies quad_in_chunk(#[trigger] quads@[j]) by {
                    if j < pre_len {
                        assert(quads@.take(pre_len as int)[j] == quads@[j]);
                        assert(quad_in_chunk(pre[j]));
                    }
                }
                let old_cuts = cuts;
                cuts = cuts.push(quads.len() as int);
                assert forall|k: int| 0 <= k <= k_new implies #[trigger] cuts[k] == old_cuts[k] by {}
            }
            pass += 1;
        }
        axis += 1;
    }
    proof {
        assert(mesh_split(*chunk, *neighbors, quads@, cuts));
    }
    let mut vertices: Vec<PackedVertex> = Vec::new();
    let mut indices: Vec<u32> = Vec::new();
    let mut aabb_min: [i32; 3] = [i32::MAX, i32::MAX, i32::MAX];
    let mut aabb_max: [i32; 3] = [i32::MIN, i32::MIN, i32::MIN];
    let mut i: usize = 0;
    while i < quads.len()
        invariant
            i <= quads.len(),
            quads.len() <= 6 * 64 * 4096,
            forall|j: int| 0 <= j < quads.len() ==> quad_in_chunk(#[trigger] quads@[j]),
            vertices.len() == 4 * i,
            vertices@ == mesh_vertices(*chunk, *neighbors, quads@.take(i as int)),
            indices@ == mesh_indices(*chunk, *neighbors, quads@.take(i as int)),
            forall|c: int|
                0 <= c < 3 ==> aabb_min[c] == bounds_min(quads@.take(i as int), c) && aabb_max[c] == bounds_max(quads@.take(i as int), c),
        decreases quads.len() - i,
    {
        let quad = quads[i];
        let (quad_min_v, quad_max_v) = quad_bounds(&quad);
        let mut c: usize = 0;
        while c < 3
            invariant
                c <= 3,
                forall|d: int|
                    0 <= d < c ==> aabb_min[d] == min_int(bounds_min(quads@.take(i as int), d), quad_min(quad, d))
                        && aabb_max[d] == max_int(bounds_max(quads@.take(i as int), d), quad_max(quad, d)),
                forall|d: int|
                    c <= d < 3 ==> aabb_min[d] == bounds_min(quads@.take(i as int), d) && aabb_max[d] == bounds_max(
                        quads@.take(i as int),
                        d,
                    ),
                forall|d: int| 0 <= d < 3 ==> quad_min_v[d] == quad_min(quad, d) && quad_max_v[d] == quad_max(quad, d),
            decreases 3 - c,
        {
            if quad_min_v[c] < aabb_min[c] {
                aabb_min[c] = quad_min_v[c];
            }
            if quad_max_v[c] > aabb_max[c] {
                aabb_max[c] = quad_max_v[c];
            }
            c += 1;
        }
        let ao = compute_quad_ao(chunk, neighbors, &quad);
        pack_quad(&quad, ao, &mut vertices, &mut indices);
        proof {
            let t = quads@.take(i + 1);
            assert(t.drop_last() =~= quads@.take(i as int));
            assert(t.last() == quad);
        }
        i += 1;
    }
    if quads.len() == 0 {
        aabb_min = [0, 0, 0];
        aabb_max = [0, 0, 0];
    }
    proof {
        assert(quads@.take(quads.len() as int) =~= quads@);
    }
    let mesh = PackedMesh { vertices, indices, quad_count: quads.len() as u32, aabb_min, aabb_max };
    proof {
        assert(mesh_of_quads(*chunk, *neighbors, quads@, mesh));
        assert(greedy_mesh_quads(*chunk, *neighbors, quads@));
    }
    mesh
}

} // verus!
