//! Range bookkeeping of the meshlet pool.
//!
//! Each resident chunk owns one range in each of the three meshlet
//! buffers (metadata, vertices, triangle indices). Ranges released by a
//! removal are kept on a free list and reused first-fit; otherwise new
//! ranges are appended at the buffers' tails.

use std::collections::HashMap;

use vstd::prelude::*;

use crate::chunk::ChunkKey;
use crate::meshing::packing::{MeshletDescriptor, MeshletMesh};
use super::chunk_pool::{zero_command, DrawIndexedIndirectCommand};
use vstd::std_specs::hash::spec_keys_iter;
use vstd::std_specs::iter::IteratorSpec;

verus! {

broadcast use vstd::std_specs::hash::group_hash_axioms;

/// Meshlet slots a new pool starts with.
pub const INITIAL_MESHLET_CAPACITY: usize = 65536;

/// Vertices a new pool starts with (64 per meshlet).
pub const INITIAL_MESHLET_VERTEX_CAPACITY: usize = 4194304;

/// Triangle indices a new pool starts with (124 triangles of 3 per meshlet).
pub const INITIAL_MESHLET_TRI_CAPACITY: usize = 24379392;

/// The buffer ranges held by one chunk's meshlets.
#[derive(Clone, Copy, Debug, PartialEq, Eq)]
pub struct MeshletRange {
    pub meshlet_start: u32,
    pub meshlet_count: u32,
    pub vertex_start: u32,
    pub vertex_count: u32,
    pub tri_start: u32,
    pub tri_count: u32,
}

/// Why a meshlet range could not be reserved.
#[derive(Clone, Copy, Debug, PartialEq, Eq)]
pub enum MeshletPoolError {
    /// A tail plus the requested count overflows `u32`.
    AppendOverflow,
    /// The appended range would pass a buffer's capacity.
    Exhausted {
        meshlet_count: u32,
        vertex_count: u32,
        tri_count: u32,
        meshlet_tail: u32,
        vertex_tail: u32,
        tri_tail: u32,
        meshlet_capacity: usize,
        vertex_capacity: usize,
        tri_capacity: usize,
    },
}

impl MeshletPoolError {
    /// Short description of the failure.
    pub fn message(&self) -> (s: String)
        ensures
            s@ == (match *self {
                MeshletPoolError::AppendOverflow => "meshlet append exceeds capacity"@,
                MeshletPoolError::Exhausted { .. } => "meshlet pool exhausted"@,
            }),
    {
        match self {
            MeshletPoolError::AppendOverflow => "meshlet append exceeds capacity".to_owned(),
            MeshletPoolError::Exhausted { .. } => "meshlet pool exhausted".to_owned(),
        }
    }
}

/// Count of a range in buffer `f` (0: meshlets, 1: vertices, 2: triangle indices).
pub open spec fn count_of(r: MeshletRange, f: int) -> int {
    if f == 0 {
        r.meshlet_count as int
    } else if f == 1 {
        r.vertex_count as int
    } else {
        r.tri_count as int
    }
}

/// Start of a range in buffer `f`.
pub open spec fn start_of(r: MeshletRange, f: int) -> int {
    if f == 0 {
        r.meshlet_start as int
    } else if f == 1 {
        r.vertex_start as int
    } else {
        r.tri_start as int
    }
}

/// `[a, a + n)` and `[b, b + m)` do not overlap.
pub open spec fn apart_in(a: int, n: int, b: int, m: int) -> bool {
    a + n <= b || b + m <= a
}

/// Two ranges overlap in none of the three buffers.
pub open spec fn apart(x: MeshletRange, y: MeshletRange) -> bool {
    &&& apart_in(x.meshlet_start as int, x.meshlet_count as int, y.meshlet_start as int, y.meshlet_count as int)
    &&& apart_in(x.vertex_start as int, x.vertex_count as int, y.vertex_start as int, y.vertex_count as int)
    &&& apart_in(x.tri_start as int, x.tri_count as int, y.tri_start as int, y.tri_count as int)
}

/// A range ends at or before the given tails.
pub open spec fn within(r: MeshletRange, meshlet_tail: int, vertex_tail: int, tri_tail: int) -> bool {
    &&& r.meshlet_start + r.meshlet_count <= meshlet_tail
    &&& r.vertex_start + r.vertex_count <= vertex_tail
    &&& r.tri_start + r.tri_count <= tri_tail
}

/// Sum of the counts in buffer `f` over the ranges of a map.
pub closed spec fn map_total(m: Map<u128, MeshletRange>, f: int) -> int
    decreases m.dom().len(),
{
    if m.dom().finite() && m.dom().len() > 0 {
        let k = m.dom().choose();
        proof {
            assert(m.dom().contains(k));
            assert(m.remove(k).dom() =~= m.dom().remove(k));
        }
        count_of(m[k], f) + map_total(m.remove(k), f)
    } else {
        0
    }
}

/// Sum of the counts in buffer `f` over a sequence of ranges.
pub open spec fn seq_total(s: Seq<MeshletRange>, f: int) -> int
    decreases s.len(),
{
    if s.len() == 0 {
        0
    } else {
        seq_total(s.drop_last(), f) + count_of(s.last(), f)
    }
}

/// Removing any key of a finite map subtracts its count from the total.
pub proof fn lemma_map_total_remove(m: Map<u128, MeshletRange>, k: u128, f: int)
    requires
        m.dom().finite(),
        m.contains_key(k),
    ensures
        map_total(m, f) == count_of(m[k], f) + map_total(m.remove(k), f),
        map_total(m.remove(k), f) >= 0,
    decreases m.dom().len(),
{
    assert(m.remove(k).dom() =~= m.dom().remove(k));
    let c = m.dom().choose();
    assert(m.dom().len() > 0);
    if c != k {
        assert(m.remove(c).dom() =~= m.dom().remove(c));
        lemma_map_total_remove(m.remove(c), k, f);
        lemma_map_total_remove(m.remove(k), c, f);
        assert(m.remove(c).remove(k) =~= m.remove(k).remove(c));
        assert(m.remove(c)[k] == m[k]);
        assert(m.remove(k)[c] == m[c]);
    } else {
        lemma_map_total_nonneg(m.remove(k), f);
    }
}

/// The empty map totals zero in every buffer.
pub proof fn lemma_map_total_empty(f: int)
    ensures
        map_total(Map::<u128, MeshletRange>::empty(), f) == 0,
{
    assert(Map::<u128, MeshletRange>::empty().dom() =~= Set::<u128>::empty());
}

/// Totals are never negative.
pub proof fn lemma_map_total_nonneg(m: Map<u128, MeshletRange>, f: int)
    ensures
        map_total(m, f) >= 0,
    decreases m.dom().len(),
{
    if m.dom().finite() && m.dom().len() > 0 {
        let k = m.dom().choose();
        assert(m.remove(k).dom() =~= m.dom().remove(k));
        lemma_map_total_nonneg(m.remove(k), f);
    }
}

/// Inserting a fresh key adds its count to the total.
pub proof fn lemma_map_total_insert(m: Map<u128, MeshletRange>, k: u128, r: MeshletRange, f: int)
    requires
        m.dom().finite(),
        !m.contains_key(k),
    ensures
        map_total(m.insert(k, r), f) == map_total(m, f) + count_of(r, f),
{
    lemma_map_total_remove(m.insert(k, r), k, f);
    assert(m.insert(k, r).remove(k) =~= m);
}

/// A single count never exceeds the total.
pub proof fn lemma_map_total_ge(m: Map<u128, MeshletRange>, k: u128, f: int)
    requires
        m.dom().finite(),
        m.contains_key(k),
    ensures
        map_total(m, f) >= count_of(m[k], f),
{
    lemma_map_total_remove(m, k, f);
}

/// Totals of sequences are never negative.
pub proof fn lemma_seq_total_nonneg(s: Seq<MeshletRange>, f: int)
    ensures
        seq_total(s, f) >= 0,
    decreases s.len(),
{
    if s.len() > 0 {
        lemma_seq_total_nonneg(s.drop_last(), f);
    }
}

/// Replacing one element changes the total by the difference of counts.
pub proof fn lemma_seq_total_update(s: Seq<MeshletRange>, i: int, x: MeshletRange, f: int)
    requires
        0 <= i < s.len(),
    ensures
        seq_total(s.update(i, x), f) == seq_total(s, f) - count_of(s[i], f) + count_of(x, f),
    decreases s.len(),
{
    if i < s.len() - 1 {
        lemma_seq_total_update(s.drop_last(), i, x, f);
        assert(s.update(i, x).drop_last() =~= s.drop_last().update(i, x));
    } else {
        assert(s.update(i, x).drop_last() =~= s.drop_last());
    }
}

/// `Vec::swap_remove` at `i` subtracts the removed element's count.
pub proof fn lemma_seq_total_swap_remove(s: Seq<MeshletRange>, i: int, f: int)
    requires
        0 <= i < s.len(),
    ensures
        seq_total(s.update(i, s.last()).drop_last(), f) == seq_total(s, f) - count_of(s[i], f),
{
    lemma_seq_total_update(s, i, s.last(), f);
}

/// Index of the first range with room for the requested counts, or -1.
pub open spec fn first_fit(s: Seq<MeshletRange>, meshlet_count: u32, vertex_count: u32, tri_count: u32) -> int
    decreases s.len(),
{
    if s.len() == 0 {
        -1
    } else {
        let p = first_fit(s.drop_last(), meshlet_count, vertex_count, tri_count);
        if p >= 0 {
            p
        } else if fits(s.last(), meshlet_count, vertex_count, tri_count) {
            s.len() - 1
        } else {
            -1
        }
    }
}

/// A range has room for the requested counts.
pub open spec fn fits(r: MeshletRange, meshlet_count: u32, vertex_count: u32, tri_count: u32) -> bool {
    r.meshlet_count >= meshlet_count && r.vertex_count >= vertex_count && r.tri_count >= tri_count
}

/// `first_fit` names the lowest fitting index.
pub proof fn lemma_first_fit(s: Seq<MeshletRange>, mc: u32, vc: u32, tc: u32)
    ensures
        -1 <= first_fit(s, mc, vc, tc) < s.len(),
        first_fit(s, mc, vc, tc) >= 0 ==> fits(s[first_fit(s, mc, vc, tc)], mc, vc, tc),
        forall|j: int| 0 <= j < s.len() && (first_fit(s, mc, vc, tc) < 0 || j < first_fit(s, mc, vc, tc)) ==> !fits(#[trigger] s[j], mc, vc, tc),
    decreases s.len(),
{
    if s.len() > 0 {
        lemma_first_fit(s.drop_last(), mc, vc, tc);
        assert forall|j: int| 0 <= j < s.len() - 1 implies s.drop_last()[j] == s[j] by {}
    }
}

/// Commands with the entries of `r`'s meshlet range reset to zero.
pub open spec fn cleared(cmds: Seq<DrawIndexedIndirectCommand>, r: MeshletRange) -> Seq<DrawIndexedIndirectCommand> {
    Seq::new(
        cmds.len(),
        |i: int|
            if r.meshlet_start <= i < r.meshlet_start + r.meshlet_count {
                zero_command()
            } else {
                cmds[i]
            },
    )
}

/// Per-meshlet GPU metadata. The floating-point bounds (`center`,
/// `radius`, `cone_axis`, `cone_cutoff`, `parent_error`) are carried as
/// IEEE-754 bit patterns, as in `MeshletDescriptor`.
#[derive(Clone, Copy, Debug, PartialEq, Eq)]
pub struct GpuMeshlet {
    pub center: [u32; 3],
    pub radius: u32,
    pub cone_axis: [u32; 3],
    pub cone_cutoff: u32,
    pub vertex_offset: u32,
    pub triangle_offset: u32,
    pub vertex_count: u32,
    pub triangle_count: u32,
    pub chunk_slot: u32,
    pub lod_level: u32,
    pub parent_error: u32,
    pub group_id: u32,
}

/// The GPU record of descriptor `d` stored in range `r` for `chunk_slot`:
/// its offsets move by the range's vertex and triangle starts.
pub open spec fn gpu_meshlet(d: MeshletDescriptor, r: MeshletRange, chunk_slot: u32) -> GpuMeshlet {
    GpuMeshlet {
        center: d.center,
        radius: d.radius,
        cone_axis: d.cone_axis,
        cone_cutoff: d.cone_cutoff,
        vertex_offset: (r.vertex_start + d.vertex_offset) as u32,
        triangle_offset: (r.tri_start + d.triangle_offset) as u32,
        vertex_count: d.vertex_count,
        triangle_count: d.triangle_count,
        chunk_slot,
        lod_level: d.lod_level as u32,
        parent_error: d.parent_error,
        group_id: d.group_id,
    }
}

/// The draw command of descriptor `d` stored in range `r`.
pub open spec fn meshlet_command(d: MeshletDescriptor, r: MeshletRange) -> DrawIndexedIndirectCommand {
    DrawIndexedIndirectCommand {
        index_count: (d.triangle_count * 3) as u32,
        instance_count: 1,
        first_index: (r.tri_start + d.triangle_offset) as u32,
        vertex_offset: (r.vertex_start + d.vertex_offset) as i32,
        first_instance: 0,
    }
}

/// Commands with the meshlet slots of `r` set from the descriptors `ds`.
pub open spec fn written(
    cmds: Seq<DrawIndexedIndirectCommand>,
    r: MeshletRange,
    ds: Seq<MeshletDescriptor>,
) -> Seq<DrawIndexedIndirectCommand> {
    Seq::new(
        cmds.len(),
        |j: int|
            if r.meshlet_start <= j < r.meshlet_start + ds.len() {
                meshlet_command(ds[j - r.meshlet_start], r)
            } else {
                cmds[j]
            },
    )
}

/// Sizes fit in `u32`, and each meshlet's vertex offset and triangle
/// span lie inside the mesh.
pub open spec fn upload_fits(mesh: MeshletMesh) -> bool {
    &&& mesh.meshlets@.len() <= u32::MAX
    &&& mesh.vertices@.len() <= u32::MAX
    &&& mesh.triangles@.len() <= u32::MAX
    &&& forall|i: int|
        0 <= i < mesh.meshlets@.len() ==> {
            &&& (#[trigger] mesh.meshlets@[i]).vertex_offset <= mesh.vertices@.len()
            &&& mesh.meshlets@[i].triangle_offset + 3 * mesh.meshlets@[i].triangle_count <= mesh.triangles@.len()
        }
}

/// Whether `mesh` meets what `MeshletPool::prepare_upload` asks: exactly
/// `upload_fits`.
pub fn check_upload_fits(mesh: &MeshletMesh) -> (b: bool)
    ensures
        b == upload_fits(*mesh),
{
    let max: u64 = 0xFFFF_FFFF;
    if mesh.meshlets.len() as u64 > max || mesh.vertices.len() as u64 > max || mesh.triangles.len() as u64 > max {
        return false;
    }
    let mut i: usize = 0;
    while i < mesh.meshlets.len()
        invariant
            i <= mesh.meshlets@.len(),
            forall|a: int|
                0 <= a < i ==> {
                    &&& (#[trigger] mesh.meshlets@[a]).vertex_offset <= mesh.vertices@.len()
                    &&& mesh.meshlets@[a].triangle_offset + 3 * mesh.meshlets@[a].triangle_count <= mesh.triangles@.len()
                },
        decreases mesh.meshlets@.len() - i,
    {
        let m = mesh.meshlets[i];
        if m.vertex_offset as u64 > mesh.vertices.len() as u64 || m.triangle_offset as u64 + 3 * (m.triangle_count as u64)
            > mesh.triangles.len() as u64 {
            return false;
        }
        i += 1;
    }
    true
}

/// What an upload of one chunk's meshlets writes: the reserved range, the
/// GPU metadata and the triangle indices widened to `u32`.
pub struct MeshletUpload {
    pub range: MeshletRange,
    pub meshlets: Vec<GpuMeshlet>,
    pub triangles: Vec<u32>,
}

/// Meshlet `m` lies in a resident range and has a non-empty draw command.
pub open spec fn shadow_drawn(ranges: Map<u128, MeshletRange>, cmds: Seq<DrawIndexedIndirectCommand>, m: int) -> bool {
    &&& exists|k: u128|
        #[trigger] ranges.contains_key(k) && ranges[k].meshlet_start <= m < ranges[k].meshlet_start
            + ranges[k].meshlet_count
    &&& cmds[m].index_count != 0
}

/// The dense shadow draw list: visible meshlet ids in increasing order
/// and their draw commands.
pub struct ShadowDraws {
    pub visible: Vec<u32>,
    pub commands: Vec<DrawIndexedIndirectCommand>,
}

/// Entry counts that growing the pool copies from the old GPU buffers
/// into the new ones, each from offset 0.
#[derive(Clone, Copy, Debug, PartialEq, Eq)]
pub struct MeshletGrowCopies {
    /// Meshlet metadata entries: up to the meshlet tail.
    pub meta: u32,
    /// Vertices: up to the vertex tail.
    pub vertices: u32,
    /// Triangle indices: up to the triangle tail.
    pub triangles: u32,
    /// Visible meshlet ids: the whole old list.
    pub visible: usize,
    /// Indirect draw commands: the whole old list.
    pub indirect: usize,
    /// The visible meshlet count word.
    pub count: u32,
}

/// Meshlet-granular storage bookkeeping.
pub struct MeshletPool {
    shadow_visible_meshlets: Vec<u32>,
    shadow_draw_commands: Vec<DrawIndexedIndirectCommand>,
    chunk_ranges: HashMap<u128, MeshletRange>,
    free_ranges: Vec<MeshletRange>,
    meshlet_capacity: usize,
    vertex_capacity: usize,
    tri_capacity: usize,
    active_meshlet_count: u32,
    active_vertex_count: u32,
    active_tri_count: u32,
    meshlet_tail: u32,
    vertex_tail: u32,
    tri_tail: u32,
}

impl MeshletPool {
    /// Range of each resident chunk, keyed by packed chunk key.
    pub closed spec fn ranges(self) -> Map<u128, MeshletRange> {
        self.chunk_ranges@
    }

    /// Released ranges, available for reuse.
    pub closed spec fn free(self) -> Seq<MeshletRange> {
        self.free_ranges@
    }

    /// Draw command kept for each meshlet slot.
    pub closed spec fn commands(self) -> Seq<DrawIndexedIndirectCommand> {
        self.shadow_draw_commands@
    }

    /// Meshlet ids listed by the last shadow draw setup.
    pub closed spec fn visible(self) -> Seq<u32> {
        self.shadow_visible_meshlets@
    }

    /// Append position of buffer `f`.
    pub closed spec fn tail(self, f: int) -> int {
        if f == 0 {
            self.meshlet_tail as int
        } else if f == 1 {
            self.vertex_tail as int
        } else {
            self.tri_tail as int
        }
    }

    /// Capacity of buffer `f`.
    pub closed spec fn capacity_of(self, f: int) -> int {
        if f == 0 {
            self.meshlet_capacity as int
        } else if f == 1 {
            self.vertex_capacity as int
        } else {
            self.tri_capacity as int
        }
    }

    /// Active count of buffer `f`.
    pub closed spec fn active(self, f: int) -> int {
        if f == 0 {
            self.active_meshlet_count as int
        } else if f == 1 {
            self.active_vertex_count as int
        } else {
            self.active_tri_count as int
        }
    }

    closed spec fn counts_ok(self, f: int) -> bool {
        &&& self.active(f) == map_total(self.ranges(), f)
        &&& map_total(self.ranges(), f) + seq_total(self.free(), f) <= self.tail(f)
        &&& self.tail(f) <= self.capacity_of(f)
    }

    /// Resident and free ranges lie below the tails and never overlap;
    /// active counts are the sums over resident ranges.
    pub closed spec fn wf(self) -> bool {
        let m = self.ranges();
        let fr = self.free();
        let (mt, vt, tt) = (self.tail(0), self.tail(1), self.tail(2));
        &&& self.commands().len() == self.meshlet_capacity
        &&& self.visible().len() == self.meshlet_capacity
        &&& self.counts_ok(0)
        &&& self.counts_ok(1)
        &&& self.counts_ok(2)
        &&& forall|k: u128| #[trigger] m.contains_key(k) ==> within(m[k], mt, vt, tt)
        &&& forall|i: int| 0 <= i < fr.len() ==> within(#[trigger] fr[i], mt, vt, tt)
        &&& forall|a: u128, b: u128|
            #![trigger m[a], m[b]]
            m.contains_key(a) && m.contains_key(b) && a != b ==> apart(m[a], m[b])
        &&& forall|a: u128, i: int|
            #![trigger m[a], fr[i]]
            m.contains_key(a) && 0 <= i < fr.len() ==> apart(m[a], fr[i])
        &&& forall|i: int, j: int|
            #![trigger fr[i], fr[j]]
            0 <= i < fr.len() && 0 <= j < fr.len() && i != j ==> apart(fr[i], fr[j])
    }

    /// An empty pool with the given capacities.
    pub fn with_capacities(meshlet_capacity: usize, vertex_capacity: usize, tri_capacity: usize) -> (p: MeshletPool)
        ensures
            p.wf(),
            p.ranges() == Map::<u128, MeshletRange>::empty(),
            p.free() == Seq::<MeshletRange>::empty(),
            p.commands() == Seq::new(meshlet_capacity as nat, |i: int| zero_command()),
            p.capacity_of(0) == meshlet_capacity,
            p.capacity_of(1) == vertex_capacity,
            p.capacity_of(2) == tri_capacity,
            p.tail(0) == 0 && p.tail(1) == 0 && p.tail(2) == 0,
    {
        let mut shadow_visible_meshlets: Vec<u32> = Vec::new();
        let mut shadow_draw_commands: Vec<DrawIndexedIndirectCommand> = Vec::new();
        let mut i: usize = 0;
        while i < meshlet_capacity
            invariant
                i <= meshlet_capacity,
                shadow_visible_meshlets@.len() == i,
                shadow_draw_commands@ == Seq::new(i as nat, |j: int| zero_command()),
            decreases meshlet_capacity - i,
        {
            shadow_visible_meshlets.push(0);
            shadow_draw_commands.push(DrawIndexedIndirectCommand::default());
            assert(shadow_draw_commands@ =~= Seq::new((i + 1) as nat, |j: int| zero_command()));
            i += 1;
        }
        let p = MeshletPool {
            shadow_visible_meshlets,
            shadow_draw_commands,
            chunk_ranges: HashMap::new(),
            free_ranges: Vec::new(),
            meshlet_capacity,
            vertex_capacity,
            tri_capacity,
            active_meshlet_count: 0,
            active_vertex_count: 0,
            active_tri_count: 0,
            meshlet_tail: 0,
            vertex_tail: 0,
            tri_tail: 0,
        };
        proof {
            assert(p.ranges() =~= Map::<u128, MeshletRange>::empty());
            assert(p.free() =~= Seq::<MeshletRange>::empty());
            assert(p.ranges().dom() =~= Set::<u128>::empty());
            assert(map_total(p.ranges(), 0) == 0);
            assert(map_total(p.ranges(), 1) == 0);
            assert(map_total(p.ranges(), 2) == 0);
        }
        p
    }

    /// An empty pool with the initial capacities.
    pub fn new() -> (p: MeshletPool)
        ensures
            p.wf(),
            p.ranges() == Map::<u128, MeshletRange>::empty(),
            p.free() == Seq::<MeshletRange>::empty(),
            p.capacity_of(0) == INITIAL_MESHLET_CAPACITY,
            p.capacity_of(1) == INITIAL_MESHLET_VERTEX_CAPACITY,
            p.capacity_of(2) == INITIAL_MESHLET_TRI_CAPACITY,
            p.tail(0) == 0 && p.tail(1) == 0 && p.tail(2) == 0,
    {
        Self::with_capacities(INITIAL_MESHLET_CAPACITY, INITIAL_MESHLET_VERTEX_CAPACITY, INITIAL_MESHLET_TRI_CAPACITY)
    }

    /// Resets the draw commands of `range`'s meshlet slots.
    fn clear_shadow_range(&mut self, range: MeshletRange)
        requires
            range.meshlet_start + range.meshlet_count <= old(self).commands().len(),
            range.meshlet_start + range.meshlet_count <= u32::MAX,
        ensures
            final(self).commands() == cleared(old(self).commands(), range),
            final(self).ranges() == old(self).ranges(),
            final(self).free() == old(self).free(),
            final(self).visible() == old(self).visible(),
            final(self).meshlet_capacity == old(self).meshlet_capacity,
            final(self).vertex_capacity == old(self).vertex_capacity,
            final(self).tri_capacity == old(self).tri_capacity,
            final(self).active_meshlet_count == old(self).active_meshlet_count,
            final(self).active_vertex_count == old(self).active_vertex_count,
            final(self).active_tri_count == old(self).active_tri_count,
            final(self).meshlet_tail == old(self).meshlet_tail,
            final(self).vertex_tail == old(self).vertex_tail,
            final(self).tri_tail == old(self).tri_tail,
    {
        let start = range.meshlet_start as usize;
        let end = (range.meshlet_start + range.meshlet_count) as usize;
        let mut i = start;
        while i < end
            invariant
                start <= i <= end <= self.shadow_draw_commands@.len(),
                start == range.meshlet_start,
                end == range.meshlet_start + range.meshlet_count,
                self.shadow_draw_commands@.len() == old(self).shadow_draw_commands@.len(),
                forall|j: int| 0 <= j < self.shadow_draw_commands@.len() ==> #[trigger] self.shadow_draw_commands@[j]
                    == if start <= j < i { zero_command() } else { old(self).shadow_draw_commands@[j] },
                self.chunk_ranges == old(self).chunk_ranges,
                self.free_ranges == old(self).free_ranges,
                self.shadow_visible_meshlets == old(self).shadow_visible_meshlets,
                self.meshlet_capacity == old(self).meshlet_capacity,
                self.vertex_capacity == old(self).vertex_capacity,
                self.tri_capacity == old(self).tri_capacity,
                self.active_meshlet_count == old(self).active_meshlet_count,
                self.active_vertex_count == old(self).active_vertex_count,
                self.active_tri_count == old(self).active_tri_count,
                self.meshlet_tail == old(self).meshlet_tail,
                self.vertex_tail == old(self).vertex_tail,
                self.tri_tail == old(self).tri_tail,
            decreases end - i,
        {
            self.shadow_draw_commands.set(i, DrawIndexedIndirectCommand::default());
            i += 1;
        }
        assert(self.commands() =~= cleared(old(self).commands(), range));
    }

    /// Releases `key`'s range onto the free list, resetting its draw
    /// commands and subtracting its counts.
    fn release_range(&mut self, pk: u128) -> (r: Option<MeshletRange>)
        requires
            old(self).wf(),
        ensures
            final(self).wf(),
            r == (if old(self).ranges().contains_key(pk) { Some(old(self).ranges()[pk]) } else { None }),
            final(self).ranges() == old(self).ranges().remove(pk),
            final(self).free() == (if old(self).ranges().contains_key(pk) {
                old(self).free().push(old(self).ranges()[pk])
            } else {
                old(self).free()
            }),
            final(self).commands() == (if old(self).ranges().contains_key(pk) {
                cleared(old(self).commands(), old(self).ranges()[pk])
            } else {
                old(self).commands()
            }),
            final(self).visible() == old(self).visible(),
            forall|f: int| 0 <= f < 3 ==> final(self).tail(f) == old(self).tail(f) && #[trigger] final(self).capacity_of(f)
                == old(self).capacity_of(f),
    {
        let ghost pre = *self;
        match self.chunk_ranges.remove(&pk) {
            Some(old_range) => {
                proof {
                    assert(pre.ranges().contains_key(pk));
                    assert(pre.ranges()[pk] == old_range);
                    lemma_map_total_ge(pre.ranges(), pk, 0);
                    lemma_map_total_ge(pre.ranges(), pk, 1);
                    lemma_map_total_ge(pre.ranges(), pk, 2);
                }
                self.active_meshlet_count = self.active_meshlet_count - old_range.meshlet_count;
                self.active_vertex_count = self.active_vertex_count - old_range.vertex_count;
                self.active_tri_count = self.active_tri_count - old_range.tri_count;
                proof {
                    assert(within(old_range, pre.tail(0), pre.tail(1), pre.tail(2)));
                }
                self.clear_shadow_range(old_range);
                self.free_ranges.push(old_range);
                proof {
                    let m = self.ranges();
                    let fr = self.free();
                    assert(m =~= pre.ranges().remove(pk));
                    lemma_map_total_remove(pre.ranges(), pk, 0);
                    lemma_map_total_remove(pre.ranges(), pk, 1);
                    lemma_map_total_remove(pre.ranges(), pk, 2);
                    assert(fr.drop_last() =~= pre.free());
                    assert(self.counts_ok(0));
                    assert(self.counts_ok(1));
                    assert(self.counts_ok(2));
                    assert forall|i: int| 0 <= i < fr.len() implies within(#[trigger] fr[i], self.tail(0), self.tail(1), self.tail(2)) by {
                        if i < pre.free().len() {
                            assert(fr[i] == pre.free()[i]);
                        }
                    }
                    assert forall|a: u128, b: u128|
                        #![trigger m[a], m[b]]
                        m.contains_key(a) && m.contains_key(b) && a != b implies apart(m[a], m[b]) by {
                        assert(pre.ranges()[a] == m[a]);
                        assert(pre.ranges()[b] == m[b]);
                    }
                    assert forall|a: u128, i: int|
                        #![trigger m[a], fr[i]]
                        m.contains_key(a) && 0 <= i < fr.len() implies apart(m[a], fr[i]) by {
                        assert(pre.ranges()[a] == m[a]);
                        if i < pre.free().len() {
                            assert(fr[i] == pre.free()[i]);
                        } else {
                            assert(fr[i] == pre.ranges()[pk]);
                        }
                    }
                    assert forall|i: int, j: int|
                        #![trigger fr[i], fr[j]]
                        0 <= i < fr.len() && 0 <= j < fr.len() && i != j implies apart(fr[i], fr[j]) by {
                        if i < pre.free().len() && j < pre.free().len() {
                            assert(fr[i] == pre.free()[i]);
                            assert(fr[j] == pre.free()[j]);
                        } else if i < pre.free().len() {
                            assert(fr[i] == pre.free()[i]);
                            assert(fr[j] == pre.ranges()[pk]);
                            assert(apart(pre.ranges()[pk], pre.free()[i]));
                        } else {
                            assert(fr[j] == pre.free()[j]);
                            assert(fr[i] == pre.ranges()[pk]);
                        }
                    }
                }
                Some(old_range)
            },
            None => {
                proof {
                    assert(self.ranges() =~= pre.ranges().remove(pk));
                    assert(self.ranges() =~= pre.ranges());
                }
                None
            },
        }
    }

    /// Free list after `pk`'s range, if any, is released.
    pub open spec fn released_free(self, pk: u128) -> Seq<MeshletRange> {
        if self.ranges().contains_key(pk) {
            self.free().push(self.ranges()[pk])
        } else {
            self.free()
        }
    }

    /// Draw commands after `pk`'s range, if any, is released.
    pub open spec fn released_commands(self, pk: u128) -> Seq<DrawIndexedIndirectCommand> {
        if self.ranges().contains_key(pk) {
            cleared(self.commands(), self.ranges()[pk])
        } else {
            self.commands()
        }
    }

    /// Appending the counts would overflow a `u32` tail.
    pub open spec fn append_overflows(self, mc: u32, vc: u32, tc: u32) -> bool {
        self.tail(0) + mc > u32::MAX || self.tail(1) + vc > u32::MAX || self.tail(2) + tc > u32::MAX
    }

    /// Appending the counts would pass a capacity.
    pub open spec fn append_exceeds(self, mc: u32, vc: u32, tc: u32) -> bool {
        self.tail(0) + mc > self.capacity_of(0) || self.tail(1) + vc > self.capacity_of(1) || self.tail(2) + tc
            > self.capacity_of(2)
    }

    /// How `reserve_range(pk, mc, vc, tc)` takes the pool from `pre` to
    /// `post` with result `r`, draw commands aside: `pk`'s own range is
    /// released first; then the first free range with room is reused (its
    /// start, the requested counts) and dropped from the free list by
    /// swap-removal; else the counts are appended at the tails, which
    /// fails when a tail would overflow or pass its capacity.
    pub open spec fn reserved(
        pre: MeshletPool,
        post: MeshletPool,
        pk: u128,
        mc: u32,
        vc: u32,
        tc: u32,
        r: Result<MeshletRange, MeshletPoolError>,
    ) -> bool {
        let m1 = pre.ranges().remove(pk);
        let f1 = pre.released_free(pk);
        let idx = first_fit(f1, mc, vc, tc);
        &&& post.capacity_of(0) == pre.capacity_of(0)
        &&& post.capacity_of(1) == pre.capacity_of(1)
        &&& post.capacity_of(2) == pre.capacity_of(2)
        &&& match r {
            Ok(range) => {
                &&& range.meshlet_count == mc
                &&& range.vertex_count == vc
                &&& range.tri_count == tc
                &&& post.ranges() == m1.insert(pk, range)
                &&& if idx >= 0 {
                    &&& range.meshlet_start == f1[idx].meshlet_start
                    &&& range.vertex_start == f1[idx].vertex_start
                    &&& range.tri_start == f1[idx].tri_start
                    &&& post.free() == f1.update(idx, f1.last()).drop_last()
                    &&& post.tail(0) == pre.tail(0)
                    &&& post.tail(1) == pre.tail(1)
                    &&& post.tail(2) == pre.tail(2)
                } else {
                    &&& !pre.append_overflows(mc, vc, tc)
                    &&& !pre.append_exceeds(mc, vc, tc)
                    &&& range.meshlet_start == pre.tail(0)
                    &&& range.vertex_start == pre.tail(1)
                    &&& range.tri_start == pre.tail(2)
                    &&& post.free() == f1
                    &&& post.tail(0) == pre.tail(0) + mc
                    &&& post.tail(1) == pre.tail(1) + vc
                    &&& post.tail(2) == pre.tail(2) + tc
                }
            },
            Err(e) => {
                &&& idx < 0
                &&& post.ranges() == m1
                &&& post.free() == f1
                &&& post.tail(0) == pre.tail(0)
                &&& post.tail(1) == pre.tail(1)
                &&& post.tail(2) == pre.tail(2)
                &&& (e == MeshletPoolError::AppendOverflow) == pre.append_overflows(mc, vc, tc)
                &&& !pre.append_overflows(mc, vc, tc) ==> {
                    &&& pre.append_exceeds(mc, vc, tc)
                    &&& e == MeshletPoolError::Exhausted {
                        meshlet_count: mc,
                        vertex_count: vc,
                        tri_count: tc,
                        meshlet_tail: pre.tail(0) as u32,
                        vertex_tail: pre.tail(1) as u32,
                        tri_tail: pre.tail(2) as u32,
                        meshlet_capacity: pre.capacity_of(0) as usize,
                        vertex_capacity: pre.capacity_of(1) as usize,
                        tri_capacity: pre.capacity_of(2) as usize,
                    }
                }
            },
        }
    }

    /// Reserves ranges of the given sizes for `key`, releasing its current
    /// range first (see `reserved`).
    pub fn reserve_range(&mut self, key: ChunkKey, meshlet_count: u32, vertex_count: u32, tri_count: u32) -> (r: Result<
        MeshletRange,
        MeshletPoolError,
    >)
        requires
            old(self).wf(),
        ensures
            final(self).wf(),
            Self::reserved(*old(self), *final(self), key.packed(), meshlet_count, vertex_count, tri_count, r),
            final(self).commands() == old(self).released_commands(key.packed()),
            final(self).visible() == old(self).visible(),
    {
        let pk = key.pack();
        let _ = self.release_range(pk);
        let ghost mid = *self;
        let ghost fr = mid.free();
        let mut found = false;
        let mut i: usize = 0;
        while !found && i < self.free_ranges.len()
            invariant
                *self == mid,
                fr == mid.free(),
                i <= fr.len(),
                forall|j: int| 0 <= j < i ==> !fits(#[trigger] fr[j], meshlet_count, vertex_count, tri_count),
                found ==> i < fr.len() && fits(fr[i as int], meshlet_count, vertex_count, tri_count),
            decreases fr.len() - i + (if found { 0int } else { 1int }),
        {
            let c = self.free_ranges[i];
            if c.meshlet_count >= meshlet_count && c.vertex_count >= vertex_count && c.tri_count >= tri_count {
                found = true;
            } else {
                i += 1;
            }
        }
        proof {
            lemma_first_fit(fr, meshlet_count, vertex_count, tri_count);
            let p = first_fit(fr, meshlet_count, vertex_count, tri_count);
            if found {
                if p < 0 || p > i {
                    assert(!fits(fr[i as int], meshlet_count, vertex_count, tri_count));
                }
                if p >= 0 && p < i {
                    assert(!fits(fr[p], meshlet_count, vertex_count, tri_count));
                }
                assert(p == i);
            } else {
                if p >= 0 {
                    assert(!fits(fr[p], meshlet_count, vertex_count, tri_count));
                }
                assert(p < 0);
            }
        }
        let range = if found {
            let free = self.free_ranges.swap_remove(i);
            let range = MeshletRange {
                meshlet_start: free.meshlet_start,
                meshlet_count,
                vertex_start: free.vertex_start,
                vertex_count,
                tri_start: free.tri_start,
                tri_count,
            };
            proof {
                let f2 = self.free();
                assert(f2 =~= fr.update(i as int, fr.last()).drop_last());
                assert forall|j: int| 0 <= j < f2.len() implies (#[trigger] f2[j] == fr[if j == i { fr.len() - 1 } else { j }]) by {}
                lemma_seq_total_swap_remove(fr, i as int, 0);
                lemma_seq_total_swap_remove(fr, i as int, 1);
                lemma_seq_total_swap_remove(fr, i as int, 2);
                assert(within(free, mid.tail(0), mid.tail(1), mid.tail(2)));
            }
            range
        } else {
            let meshlet_end = match self.meshlet_tail.checked_add(meshlet_count) {
                Some(e) => e,
                None => {
                    return Err(MeshletPoolError::AppendOverflow);
                },
            };
            let vertex_end = match self.vertex_tail.checked_add(vertex_count) {
                Some(e) => e,
                None => {
                    return Err(MeshletPoolError::AppendOverflow);
                },
            };
            let tri_end = match self.tri_tail.checked_add(tri_count) {
                Some(e) => e,
                None => {
                    return Err(MeshletPoolError::AppendOverflow);
                },
            };
            if meshlet_end as usize > self.meshlet_capacity || vertex_end as usize > self.vertex_capacity
                || tri_end as usize > self.tri_capacity {
                return Err(
                    MeshletPoolError::Exhausted {
                        meshlet_count,
                        vertex_count,
                        tri_count,
                        meshlet_tail: self.meshlet_tail,
                        vertex_tail: self.vertex_tail,
                        tri_tail: self.tri_tail,
                        meshlet_capacity: self.meshlet_capacity,
                        vertex_capacity: self.vertex_capacity,
                        tri_capacity: self.tri_capacity,
                    },
                );
            }
            let range = MeshletRange {
                meshlet_start: self.meshlet_tail,
                meshlet_count,
                vertex_start: self.vertex_tail,
                vertex_count,
                tri_start: self.tri_tail,
                tri_count,
            };
            self.meshlet_tail = meshlet_end;
            self.vertex_tail = vertex_end;
            self.tri_tail = tri_end;
            range
        };
        proof {
            assert(!mid.ranges().contains_key(pk));
            lemma_map_total_insert(mid.ranges(), pk, range, 0);
            lemma_map_total_insert(mid.ranges(), pk, range, 1);
            lemma_map_total_insert(mid.ranges(), pk, range, 2);
            lemma_seq_total_nonneg(self.free(), 0);
            lemma_seq_total_nonneg(self.free(), 1);
            lemma_seq_total_nonneg(self.free(), 2);
        }
        self.chunk_ranges.insert(pk, range);
        self.active_meshlet_count = self.active_meshlet_count + meshlet_count;
        self.active_vertex_count = self.active_vertex_count + vertex_count;
        self.active_tri_count = self.active_tri_count + tri_count;
        proof {
            let m = self.ranges();
            let f2 = self.free();
            let (mt, vt, tt) = (self.tail(0), self.tail(1), self.tail(2));
            assert(m =~= mid.ranges().insert(pk, range));
            assert(self.counts_ok(0));
            assert(self.counts_ok(1));
            assert(self.counts_ok(2));
            if found {
                let fi = fr[i as int];
                assert forall|j: int| 0 <= j < f2.len() implies (#[trigger] f2[j] == fr[if j == i { fr.len() - 1 } else { j }]) by {}
                assert forall|k: u128| #[trigger] m.contains_key(k) implies within(m[k], mt, vt, tt) by {
                    if k != pk {
                        assert(mid.ranges().contains_key(k));
                    }
                }
                assert forall|j: int| 0 <= j < f2.len() implies within(#[trigger] f2[j], mt, vt, tt) by {
                    let jj = if j == i { fr.len() - 1 } else { j };
                    assert(within(fr[jj], mt, vt, tt));
                }
                assert forall|a: u128, b: u128|
                    #![trigger m[a], m[b]]
                    m.contains_key(a) && m.contains_key(b) && a != b implies apart(m[a], m[b]) by {
                    if a == pk {
                        assert(apart(mid.ranges()[b], fi));
                    } else if b == pk {
                        assert(apart(mid.ranges()[a], fi));
                    } else {
                        assert(apart(mid.ranges()[a], mid.ranges()[b]));
                    }
                }
                assert forall|a: u128, j: int|
                    #![trigger m[a], f2[j]]
                    m.contains_key(a) && 0 <= j < f2.len() implies apart(m[a], f2[j]) by {
                    let jj = if j == i { fr.len() - 1 } else { j };
                    assert(f2[j] == fr[jj]);
                    if a == pk {
                        assert(jj != i);
                        assert(apart(fr[i as int], fr[jj]));
                    } else {
                        assert(apart(mid.ranges()[a], fr[jj]));
                    }
                }
                assert forall|j1: int, j2: int|
                    #![trigger f2[j1], f2[j2]]
                    0 <= j1 < f2.len() && 0 <= j2 < f2.len() && j1 != j2 implies apart(f2[j1], f2[j2]) by {
                    let a1 = if j1 == i { fr.len() - 1 } else { j1 };
                    let a2 = if j2 == i { fr.len() - 1 } else { j2 };
                    assert(f2[j1] == fr[a1]);
                    assert(f2[j2] == fr[a2]);
                    assert(apart(fr[a1], fr[a2]));
                }
            } else {
                assert forall|k: u128| #[trigger] m.contains_key(k) implies within(m[k], mt, vt, tt) by {
                    if k != pk {
                        assert(mid.ranges().contains_key(k));
                        assert(within(mid.ranges()[k], mid.tail(0), mid.tail(1), mid.tail(2)));
                    }
                }
                assert forall|j: int| 0 <= j < f2.len() implies within(#[trigger] f2[j], mt, vt, tt) by {
                    assert(within(fr[j], mid.tail(0), mid.tail(1), mid.tail(2)));
                }
                assert forall|a: u128, b: u128|
                    #![trigger m[a], m[b]]
                    m.contains_key(a) && m.contains_key(b) && a != b implies apart(m[a], m[b]) by {
                    if a == pk {
                        assert(within(mid.ranges()[b], mid.tail(0), mid.tail(1), mid.tail(2)));
                    } else if b == pk {
                        assert(within(mid.ranges()[a], mid.tail(0), mid.tail(1), mid.tail(2)));
                    } else {
                        assert(apart(mid.ranges()[a], mid.ranges()[b]));
                    }
                }
                assert forall|a: u128, j: int|
                    #![trigger m[a], f2[j]]
                    m.contains_key(a) && 0 <= j < f2.len() implies apart(m[a], f2[j]) by {
                    assert(within(fr[j], mid.tail(0), mid.tail(1), mid.tail(2)));
                    if a != pk {
                        assert(apart(mid.ranges()[a], fr[j]));
                    }
                }
                assert forall|j1: int, j2: int|
                    #![trigger f2[j1], f2[j2]]
                    0 <= j1 < f2.len() && 0 <= j2 < f2.len() && j1 != j2 implies apart(f2[j1], f2[j2]) by {
                    assert(apart(fr[j1], fr[j2]));
                }
            }
        }
        Ok(range)
    }

    /// Reserves `key`'s range for `mesh` and fills in its GPU metadata,
    /// widened triangle indices and draw commands.
    pub fn prepare_upload(&mut self, key: ChunkKey, mesh: &MeshletMesh, chunk_slot: u32) -> (r: Result<
        MeshletUpload,
        MeshletPoolError,
    >)
        requires
            old(self).wf(),
            upload_fits(*mesh),
        ensures
            final(self).wf(),
            final(self).visible() == old(self).visible(),
            match r {
                Ok(up) => {
                    &&& Self::reserved(
                        *old(self),
                        *final(self),
                        key.packed(),
                        mesh.meshlets@.len() as u32,
                        mesh.vertices@.len() as u32,
                        mesh.triangles@.len() as u32,
                        Ok(up.range),
                    )
                    &&& up.meshlets@ == Seq::new(
                        mesh.meshlets@.len(),
                        |i: int| gpu_meshlet(mesh.meshlets@[i], up.range, chunk_slot),
                    )
                    &&& up.triangles@ == Seq::new(mesh.triangles@.len(), |i: int| mesh.triangles@[i] as u32)
                    &&& final(self).commands() == written(
                        old(self).released_commands(key.packed()),
                        up.range,
                        mesh.meshlets@,
                    )
                },
                Err(e) => {
                    &&& Self::reserved(
                        *old(self),
                        *final(self),
                        key.packed(),
                        mesh.meshlets@.len() as u32,
                        mesh.vertices@.len() as u32,
                        mesh.triangles@.len() as u32,
                        Err(e),
                    )
                    &&& final(self).commands() == old(self).released_commands(key.packed())
                },
            },
    {
        let mut triangles: Vec<u32> = Vec::with_capacity(mesh.triangles.len());
        let mut t: usize = 0;
        while t < mesh.triangles.len()
            invariant
                t <= mesh.triangles@.len(),
                triangles@ == Seq::new(t as nat, |i: int| mesh.triangles@[i] as u32),
            decreases mesh.triangles@.len() - t,
        {
            triangles.push(mesh.triangles[t] as u32);
            assert(triangles@ =~= Seq::new((t + 1) as nat, |i: int| mesh.triangles@[i] as u32));
            t += 1;
        }
        let meshlet_count = mesh.meshlets.len() as u32;
        let vertex_count = mesh.vertices.len() as u32;
        let tri_count = triangles.len() as u32;
        let range = match self.reserve_range(key, meshlet_count, vertex_count, tri_count) {
            Ok(range) => range,
            Err(e) => {
                return Err(e);
            },
        };
        let ghost reserved_state = *self;
        proof {
            assert(self.ranges().contains_key(key.packed()));
            assert(within(range, self.tail(0), self.tail(1), self.tail(2)));
        }
        let mut meshlets: Vec<GpuMeshlet> = Vec::with_capacity(mesh.meshlets.len());
        let mut i: usize = 0;
        while i < mesh.meshlets.len()
            invariant
                i <= mesh.meshlets@.len(),
                upload_fits(*mesh),
                range.meshlet_count == mesh.meshlets@.len(),
                range.vertex_count == mesh.vertices@.len(),
                range.tri_count == mesh.triangles@.len(),
                within(range, self.tail(0), self.tail(1), self.tail(2)),
                self.wf(),
                self.ranges() == reserved_state.ranges(),
                self.free() == reserved_state.free(),
                self.visible() == reserved_state.visible(),
                forall|f: int| #[trigger] self.tail(f) == reserved_state.tail(f),
                forall|f: int| #[trigger] self.capacity_of(f) == reserved_state.capacity_of(f),
                meshlets@ == Seq::new(i as nat, |j: int| gpu_meshlet(mesh.meshlets@[j], range, chunk_slot)),
                self.commands().len() == reserved_state.commands().len(),
                forall|j: int| 0 <= j < self.commands().len() ==> #[trigger] self.commands()[j] == if range.meshlet_start <= j < range.meshlet_start + i {
                    meshlet_command(mesh.meshlets@[j - range.meshlet_start], range)
                } else {
                    reserved_state.commands()[j]
                },
            decreases mesh.meshlets@.len() - i,
        {
            let desc = mesh.meshlets[i];
            proof {
                assert(desc == mesh.meshlets@[i as int]);
                assert(desc.vertex_offset <= mesh.vertices@.len());
                assert(desc.triangle_offset + 3 * desc.triangle_count <= mesh.triangles@.len());
            }
            meshlets.push(
                GpuMeshlet {
                    center: desc.center,
                    radius: desc.radius,
                    cone_axis: desc.cone_axis,
                    cone_cutoff: desc.cone_cutoff,
                    vertex_offset: range.vertex_start + desc.vertex_offset,
                    triangle_offset: range.tri_start + desc.triangle_offset,
                    vertex_count: desc.vertex_count,
                    triangle_count: desc.triangle_count,
                    chunk_slot,
                    lod_level: desc.lod_level as u32,
                    parent_error: desc.parent_error,
                    group_id: desc.group_id,
                },
            );
            let meshlet_id = range.meshlet_start as usize + i;
            self.shadow_draw_commands.set(
                meshlet_id,
                DrawIndexedIndirectCommand {
                    index_count: desc.triangle_count * 3,
                    instance_count: 1,
                    first_index: range.tri_start + desc.triangle_offset,
                    vertex_offset: (range.vertex_start + desc.vertex_offset) as i32,
                    first_instance: 0,
                },
            );
            assert(meshlets@ =~= Seq::new((i + 1) as nat, |j: int| gpu_meshlet(mesh.meshlets@[j], range, chunk_slot)));
            i += 1;
        }
        assert(self.commands() =~= written(reserved_state.commands(), range, mesh.meshlets@));
        Ok(MeshletUpload { range, meshlets, triangles })
    }

    /// Doubles all three capacities, extending the draw command and
    /// visible-id shadows with empty entries. Returns what the grown GPU
    /// buffers take over from the old ones: metadata, vertices and triangle
    /// indices up to their tails, the whole visible list and indirect
    /// commands, and the visible count.
    pub fn grow_capacity(&mut self) -> (copies: MeshletGrowCopies)
        requires
            old(self).wf(),
            2 * old(self).capacity_of(0) <= usize::MAX,
            2 * old(self).capacity_of(1) <= usize::MAX,
            2 * old(self).capacity_of(2) <= usize::MAX,
        ensures
            final(self).wf(),
            final(self).ranges() == old(self).ranges(),
            final(self).free() == old(self).free(),
            forall|f: int| 0 <= f < 3 ==> #[trigger] final(self).capacity_of(f) == 2 * old(self).capacity_of(f),
            forall|f: int| 0 <= f < 3 ==> #[trigger] final(self).tail(f) == old(self).tail(f),
            final(self).commands() == old(self).commands() + Seq::new(
                old(self).capacity_of(0) as nat,
                |i: int| zero_command(),
            ),
            forall|f: int| 0 <= f < 3 ==> #[trigger] final(self).active(f) == old(self).active(f),
            copies == (MeshletGrowCopies {
                meta: old(self).tail(0) as u32,
                vertices: old(self).tail(1) as u32,
                triangles: old(self).tail(2) as u32,
                visible: old(self).capacity_of(0) as usize,
                indirect: old(self).capacity_of(0) as usize,
                count: 1,
            }),
    {
        let copies = MeshletGrowCopies {
            meta: self.meshlet_tail,
            vertices: self.vertex_tail,
            triangles: self.tri_tail,
            visible: self.meshlet_capacity,
            indirect: self.meshlet_capacity,
            count: 1,
        };
        let new_meshlet_capacity = self.meshlet_capacity * 2;
        let ghost pre = *self;
        let mut i = self.meshlet_capacity;
        while i < new_meshlet_capacity
            invariant
                pre.meshlet_capacity <= i <= new_meshlet_capacity,
                new_meshlet_capacity == 2 * pre.meshlet_capacity,
                self.shadow_visible_meshlets@.len() == i,
                self.shadow_draw_commands@ == pre.commands() + Seq::new(
                    (i - pre.meshlet_capacity) as nat,
                    |j: int| zero_command(),
                ),
                self.chunk_ranges == pre.chunk_ranges,
                self.free_ranges == pre.free_ranges,
                self.meshlet_capacity == pre.meshlet_capacity,
                self.vertex_capacity == pre.vertex_capacity,
                self.tri_capacity == pre.tri_capacity,
                self.active_meshlet_count == pre.active_meshlet_count,
                self.active_vertex_count == pre.active_vertex_count,
                self.active_tri_count == pre.active_tri_count,
                self.meshlet_tail == pre.meshlet_tail,
                self.vertex_tail == pre.vertex_tail,
                self.tri_tail == pre.tri_tail,
                pre.wf(),
            decreases new_meshlet_capacity - i,
        {
            self.shadow_visible_meshlets.push(0);
            self.shadow_draw_commands.push(DrawIndexedIndirectCommand::default());
            assert(self.shadow_draw_commands@ =~= pre.commands() + Seq::new(
                (i + 1 - pre.meshlet_capacity) as nat,
                |j: int| zero_command(),
            ));
            i += 1;
        }
        self.meshlet_capacity = new_meshlet_capacity;
        self.vertex_capacity = self.vertex_capacity * 2;
        self.tri_capacity = self.tri_capacity * 2;
        proof {
            assert(self.ranges() == pre.ranges());
            assert(self.free() == pre.free());
            assert(pre.counts_ok(0) && pre.counts_ok(1) && pre.counts_ok(2));
            assert(self.counts_ok(0) && self.counts_ok(1) && self.counts_ok(2));
        }
        copies
    }

    /// Packed keys of the resident chunks, each once.
    fn resident_keys(&self) -> (keys: Vec<u128>)
        ensures
            keys@.no_duplicates(),
            forall|k: u128| #[trigger] self.ranges().contains_key(k) <==> keys@.contains(k),
    {
        let mut keys: Vec<u128> = Vec::new();
        let ghost sq = spec_keys_iter(&self.chunk_ranges).remaining();
        for k in it: self.chunk_ranges.keys()
            invariant
                it.seq() == sq,
                sq == spec_keys_iter(&self.chunk_ranges).remaining(),
                keys@.len() == it.index(),
                it.index() <= sq.len(),
                forall|i: int| 0 <= i < keys@.len() ==> #[trigger] keys@[i] == *sq[i],
        {
            keys.push(*k);
        }
        proof {
            assert(keys@ =~= sq.unref());
            assert forall|k: u128| #[trigger] self.ranges().contains_key(k) <==> keys@.contains(k) by {
                assert(sq.unref().to_set() == self.chunk_ranges@.dom());
                assert(sq.unref().to_set().contains(k) <==> sq.unref().contains(k));
            }
            assert forall|i: int, j: int| 0 <= i < keys@.len() && 0 <= j < keys@.len() && i != j implies keys@[i] != keys@[j] by {
                assert(sq.no_duplicates());
                assert(sq[i] != sq[j]);
            }
        }
        keys
    }

    /// Resident ranges with their keys, ordered by meshlet start (stable
    /// for equal starts).
    fn ranges_by_start(&self) -> (pairs: Vec<(u128, MeshletRange)>)
        ensures
            forall|i: int| #![trigger pairs@[i]] 0 <= i < pairs@.len() ==> self.ranges().contains_key(pairs@[i].0)
                && self.ranges()[pairs@[i].0] == pairs@[i].1,
            forall|i: int, j: int| 0 <= i < j < pairs@.len() ==> pairs@[i].0 != pairs@[j].0,
            forall|k: u128| #[trigger] self.ranges().contains_key(k) ==> exists|i: int| 0 <= i < pairs@.len() && pairs@[i].0 == k,
            forall|i: int, j: int| 0 <= i < j < pairs@.len() ==> pairs@[i].1.meshlet_start <= pairs@[j].1.meshlet_start,
    {
        let keys = self.resident_keys();
        let ghost mm = self.ranges();
        let mut pairs: Vec<(u128, MeshletRange)> = Vec::new();
        let mut n: usize = 0;
        while n < keys.len()
            invariant
                n <= keys@.len(),
                keys@.no_duplicates(),
                mm == self.ranges(),
                mm == self.chunk_ranges@,
                forall|k: u128| #[trigger] mm.contains_key(k) <==> keys@.contains(k),
                pairs@.len() == n,
                forall|i: int| #![trigger pairs@[i]] 0 <= i < n ==> pairs@[i].0 == keys@[i] && mm.contains_key(keys@[i])
                    && pairs@[i].1 == mm[keys@[i]],
            decreases keys@.len() - n,
        {
            let k = keys[n];
            proof {
                assert(keys@.contains(k));
                assert(mm.contains_key(k));
            }
            let r = match self.chunk_ranges.get(&k) {
                Some(r) => *r,
                None => {
                    proof {
                        assert(false);
                    }
                    MeshletRange { meshlet_start: 0, meshlet_count: 0, vertex_start: 0, vertex_count: 0, tri_start: 0, tri_count: 0 }
                },
            };
            pairs.push((k, r));
            n += 1;
        }
        proof {
            assert forall|k: u128| #[trigger] mm.contains_key(k) implies exists|i: int| 0 <= i < pairs@.len() && pairs@[i].0 == k by {
                assert(keys@.contains(k));
                let i = choose|i: int| 0 <= i < keys@.len() && keys@[i] == k;
                assert(pairs@[i].0 == k);
            }
            assert forall|i: int, j: int| 0 <= i < j < pairs@.len() implies pairs@[i].0 != pairs@[j].0 by {
                assert(keys@[i] != keys@[j]);
            }
        }
        let len = pairs.len();
        let mut i: usize = 1;
        while i < len
            invariant
                mm == self.ranges(),
                len == pairs@.len(),
                1 <= i || len == 0,
                i <= len || len == 0,
                forall|a: int| #![trigger pairs@[a]] 0 <= a < len ==> mm.contains_key(pairs@[a].0)
                    && mm[pairs@[a].0] == pairs@[a].1,
                forall|a: int, b: int| 0 <= a < b < len ==> pairs@[a].0 != pairs@[b].0,
                forall|k: u128| #[trigger] mm.contains_key(k) ==> exists|a: int| 0 <= a < len && pairs@[a].0 == k,
                forall|a: int, b: int| 0 <= a < b < i && b < len ==> pairs@[a].1.meshlet_start <= pairs@[b].1.meshlet_start,
            decreases len - i,
        {
            let mut j: usize = i;
            while j > 0 && pairs[j - 1].1.meshlet_start > pairs[j].1.meshlet_start
                invariant
                    mm == self.ranges(),
                    len == pairs@.len(),
                    0 <= j <= i < len,
                    forall|a: int| #![trigger pairs@[a]] 0 <= a < len ==> mm.contains_key(pairs@[a].0)
                        && mm[pairs@[a].0] == pairs@[a].1,
                    forall|a: int, b: int| 0 <= a < b < len ==> pairs@[a].0 != pairs@[b].0,
                    forall|k: u128| #[trigger] mm.contains_key(k) ==> exists|a: int| 0 <= a < len && pairs@[a].0 == k,
                    forall|a: int, b: int|
                        0 <= a < b <= i && a != j && b != j ==> pairs@[a].1.meshlet_start <= pairs@[b].1.meshlet_start,
                    forall|b: int| j < b <= i ==> pairs@[j as int].1.meshlet_start <= #[trigger] pairs@[b].1.meshlet_start,
                decreases j,
            {
                let ghost pre = pairs@;
                let x = pairs[j - 1];
                let y = pairs[j];
                pairs.set(j - 1, y);
                pairs.set(j, x);
                proof {
                    assert forall|k: u128| #[trigger] mm.contains_key(k) implies exists|a: int| 0 <= a < len && pairs@[a].0 == k by {
                        let a = choose|a: int| 0 <= a < len && pre[a].0 == k;
                        let a2 = if a == j - 1 { j as int } else if a == j { j - 1 } else { a };
                        assert(pairs@[a2].0 == k);
                    }
                    assert forall|a: int, b: int| 0 <= a < b < len implies pairs@[a].0 != pairs@[b].0 by {
                        let a2 = if a == j - 1 { j as int } else if a == j { j - 1 } else { a };
                        let b2 = if b == j - 1 { j as int } else if b == j { j - 1 } else { b };
                        assert(pairs@[a].0 == pre[a2].0);
                        assert(pairs@[b].0 == pre[b2].0);
                        if a2 < b2 {
                            assert(pre[a2].0 != pre[b2].0);
                        } else {
                            assert(pre[b2].0 != pre[a2].0);
                        }
                    }
                }
                j -= 1;
            }
            i += 1;
        }
        pairs
    }

    /// Lists, in increasing order, the meshlets of resident ranges whose
    /// draw command is non-empty, records them as the visible list, and
    /// gathers their commands.
    pub fn prepare_shadow_draws(&mut self) -> (s: ShadowDraws)
        requires
            old(self).wf(),
        ensures
            final(self).wf(),
            final(self).ranges() == old(self).ranges(),
            final(self).free() == old(self).free(),
            final(self).commands() == old(self).commands(),
            forall|f: int| #[trigger] final(self).tail(f) == old(self).tail(f),
            forall|f: int| #[trigger] final(self).capacity_of(f) == old(self).capacity_of(f),
            s.visible@.len() <= final(self).visible().len(),
            final(self).visible().len() == old(self).visible().len(),
            forall|i: int| s.visible@.len() <= i < old(self).visible().len() ==> #[trigger] final(self).visible()[i] == old(self).visible()[i],
            final(self).visible().take(s.visible@.len() as int) == s.visible@,
            forall|i: int, j: int| 0 <= i < j < s.visible@.len() ==> s.visible@[i] < s.visible@[j],
            forall|i: int| 0 <= i < s.visible@.len() ==> shadow_drawn(old(self).ranges(), old(self).commands(), #[trigger] s.visible@[i] as int),
            forall|m: int| #[trigger] shadow_drawn(old(self).ranges(), old(self).commands(), m) ==> s.visible@.contains(m as u32),
            s.commands@ == Seq::new(s.visible@.len(), |i: int| old(self).commands()[s.visible@[i] as int]),
    {
        let pairs = self.ranges_by_start();
        let ghost pre = *self;
        let ghost m = pre.ranges();
        let ghost cmds = pre.commands();
        let ghost mut bound: int = 0;
        let mut visible: Vec<u32> = Vec::new();
        let mut idx: usize = 0;
        while idx < pairs.len()
            invariant
                pre.wf(),
                m == pre.ranges(),
                cmds == pre.commands(),
                idx <= pairs@.len(),
                self.chunk_ranges == pre.chunk_ranges,
                self.free_ranges == pre.free_ranges,
                self.shadow_draw_commands == pre.shadow_draw_commands,
                self.meshlet_capacity == pre.meshlet_capacity,
                self.vertex_capacity == pre.vertex_capacity,
                self.tri_capacity == pre.tri_capacity,
                self.active_meshlet_count == pre.active_meshlet_count,
                self.active_vertex_count == pre.active_vertex_count,
                self.active_tri_count == pre.active_tri_count,
                self.meshlet_tail == pre.meshlet_tail,
                self.vertex_tail == pre.vertex_tail,
                self.tri_tail == pre.tri_tail,
                self.shadow_visible_meshlets@.len() == pre.shadow_visible_meshlets@.len(),
                forall|i: int| 0 <= i < visible@.len() ==> self.shadow_visible_meshlets@[i] == #[trigger] visible@[i],
                forall|i: int| visible@.len() <= i < self.shadow_visible_meshlets@.len() ==> #[trigger] self.shadow_visible_meshlets@[i] == pre.shadow_visible_meshlets@[i],
                forall|a: int| #![trigger pairs@[a]] 0 <= a < pairs@.len() ==> m.contains_key(pairs@[a].0) && m[pairs@[a].0] == pairs@[a].1,
                forall|a: int, b: int| 0 <= a < b < pairs@.len() ==> pairs@[a].0 != pairs@[b].0,
                forall|a: int, b: int| 0 <= a < b < pairs@.len() ==> pairs@[a].1.meshlet_start <= pairs@[b].1.meshlet_start,
                0 <= bound <= pre.tail(0),
                pre.tail(0) <= pre.meshlet_capacity,
                visible@.len() <= bound,
                forall|i: int| 0 <= i < visible@.len() ==> #[trigger] visible@[i] < bound,
                forall|b: int| idx <= b < pairs@.len() && pairs@[b].1.meshlet_count > 0 ==> bound <= #[trigger] pairs@[b].1.meshlet_start,
                forall|i: int, j: int| 0 <= i < j < visible@.len() ==> visible@[i] < visible@[j],
                forall|i: int| 0 <= i < visible@.len() ==> shadow_drawn(m, cmds, #[trigger] visible@[i] as int),
                forall|a: int, x: int|
                    0 <= a < idx && pairs@[a].1.meshlet_start <= x < pairs@[a].1.meshlet_start + pairs@[a].1.meshlet_count
                        && cmds[x].index_count != 0 ==> #[trigger] visible@.contains(x as u32) && #[trigger] pairs@[a].1 == pairs@[a].1,
            decreases pairs@.len() - idx,
        {
            let (key, range) = pairs[idx];
            proof {
                assert(m.contains_key(key) && m[key] == range);
                assert(within(range, pre.tail(0), pre.tail(1), pre.tail(2)));
            }
            let end = range.meshlet_start + range.meshlet_count;
            let ghost vis_before = visible@;
            let mut id = range.meshlet_start;
            while id < end
                invariant
                    range.meshlet_start <= id <= end,
                    end == range.meshlet_start + range.meshlet_count,
                    end <= pre.tail(0) <= pre.meshlet_capacity,
                    m.contains_key(key) && m[key] == range,
                    cmds == pre.commands(),
                    cmds.len() == pre.meshlet_capacity,
                    self.shadow_draw_commands == pre.shadow_draw_commands,
                    self.shadow_visible_meshlets@.len() == pre.meshlet_capacity,
                    pre.wf(),
                    self.chunk_ranges == pre.chunk_ranges,
                    self.free_ranges == pre.free_ranges,
                    self.meshlet_capacity == pre.meshlet_capacity,
                    self.vertex_capacity == pre.vertex_capacity,
                    self.tri_capacity == pre.tri_capacity,
                    self.active_meshlet_count == pre.active_meshlet_count,
                    self.active_vertex_count == pre.active_vertex_count,
                    self.active_tri_count == pre.active_tri_count,
                    self.meshlet_tail == pre.meshlet_tail,
                    self.vertex_tail == pre.vertex_tail,
                    self.tri_tail == pre.tri_tail,
                    forall|i: int| 0 <= i < visible@.len() ==> self.shadow_visible_meshlets@[i] == #[trigger] visible@[i],
                    forall|i: int| visible@.len() <= i < pre.meshlet_capacity ==> #[trigger] self.shadow_visible_meshlets@[i] == pre.shadow_visible_meshlets@[i],
                    range.meshlet_count > 0 ==> bound <= range.meshlet_start,
                    visible@.len() <= bound || (range.meshlet_count > 0 && visible@.len() <= id),
                    vis_before.len() <= bound,
                    visible@.len() <= id || visible@.len() == vis_before.len(),
                    forall|i: int| 0 <= i < vis_before.len() ==> #[trigger] vis_before[i] < bound,
                    vis_before.len() <= visible@.len(),
                    forall|i: int| 0 <= i < vis_before.len() ==> #[trigger] visible@[i] == vis_before[i],
                    forall|i: int| vis_before.len() <= i < visible@.len() ==> range.meshlet_start <= #[trigger] visible@[i] < id,
                    forall|i: int, j: int| 0 <= i < j < visible@.len() ==> visible@[i] < visible@[j],
                    forall|i: int| 0 <= i < visible@.len() ==> shadow_drawn(m, cmds, #[trigger] visible@[i] as int),
                    forall|x: int| range.meshlet_start <= x < id && cmds[x].index_count != 0 ==> #[trigger] visible@.contains(x as u32),
                    forall|x: int| #[trigger] vis_before.contains(x as u32) ==> visible@.contains(x as u32),
                decreases end - id,
            {
                let command = self.shadow_draw_commands[id as usize];
                if command.index_count != 0 {
                    proof {
                        assert(range.meshlet_count > 0);
                        assert(shadow_drawn(m, cmds, id as int));
                    }
                    let count = visible.len();
                    self.shadow_visible_meshlets.set(count, id);
                    let ghost vb = visible@;
                    proof {
                        assert forall|i: int| 0 <= i < vb.len() implies vb[i] < id by {
                            if i < vis_before.len() {
                                assert(visible@[i] == vis_before[i]);
                                assert(vis_before[i] < bound);
                            } else {
                                assert(range.meshlet_start <= visible@[i] < id);
                            }
                        }
                    }
                    visible.push(id);
                    proof {
                        assert forall|i: int, j: int| 0 <= i < j < visible@.len() implies visible@[i] < visible@[j] by {
                            if j == vb.len() {
                                assert(vb[i] < id);
                            } else {
                                assert(vb[i] < vb[j]);
                            }
                        }
                        assert(visible@[vb.len() as int] == id);
                        assert forall|x: int| #[trigger] vis_before.contains(x as u32) implies visible@.contains(x as u32) by {
                            assert(vb.contains(x as u32));
                            let w = choose|w: int| 0 <= w < vb.len() && vb[w] == x as u32;
                            assert(visible@[w] == x as u32);
                        }
                        assert forall|x: int| range.meshlet_start <= x < id + 1 && cmds[x].index_count != 0 implies #[trigger] visible@.contains(x as u32) by {
                            if x < id {
                                assert(vb.contains(x as u32));
                                let w = choose|w: int| 0 <= w < vb.len() && vb[w] == x as u32;
                                assert(visible@[w] == x as u32);
                            } else {
                                assert(visible@[vb.len() as int] == x as u32);
                            }
                        }
                    }
                }
                id += 1;
            }
            proof {
                let r = range;
                if r.meshlet_count > 0 {
                    assert forall|b: int| idx + 1 <= b < pairs@.len() && pairs@[b].1.meshlet_count > 0 implies r.meshlet_start
                        + r.meshlet_count <= #[trigger] pairs@[b].1.meshlet_start by {
                        assert(pairs@[idx as int].0 != pairs@[b].0);
                        assert(m.contains_key(pairs@[b].0));
                        assert(apart(m[pairs@[idx as int].0], m[pairs@[b].0]));
                    }
                    assert forall|i: int| 0 <= i < visible@.len() implies #[trigger] visible@[i] < r.meshlet_start
                        + r.meshlet_count by {
                        if i < vis_before.len() {
                            assert(visible@[i] == vis_before[i]);
                            assert(vis_before[i] < bound);
                        } else {
                            assert(r.meshlet_start <= visible@[i] < r.meshlet_start + r.meshlet_count);
                        }
                    }
                    bound = r.meshlet_start + r.meshlet_count;
                } else {
                    assert forall|i: int| 0 <= i < visible@.len() implies #[trigger] visible@[i] < bound by {
                        if i < vis_before.len() {
                            assert(visible@[i] == vis_before[i]);
                            assert(vis_before[i] < bound);
                        } else {
                            assert(range.meshlet_start <= visible@[i] < id);
                            assert(id == end);
                            assert(false);
                        }
                    }
                }
                assert forall|a: int, x: int|
                    0 <= a < idx + 1 && pairs@[a].1.meshlet_start <= x < pairs@[a].1.meshlet_start + pairs@[a].1.meshlet_count
                        && cmds[x].index_count != 0 implies #[trigger] visible@.contains(x as u32) && #[trigger] pairs@[a].1
                        == pairs@[a].1 by {
                    if a < idx {
                        assert(vis_before.contains(x as u32));
                    }
                }
            }
            idx += 1;
        }
        let mut commands: Vec<DrawIndexedIndirectCommand> = Vec::new();
        let mut t: usize = 0;
        while t < visible.len()
            invariant
                t <= visible@.len(),
                cmds == pre.commands(),
                cmds.len() == pre.meshlet_capacity,
                self.shadow_draw_commands == pre.shadow_draw_commands,
                forall|i: int| 0 <= i < visible@.len() ==> #[trigger] visible@[i] < pre.meshlet_capacity,
                self.shadow_visible_meshlets@.len() == pre.shadow_visible_meshlets@.len(),
                visible@.len() <= pre.shadow_visible_meshlets@.len(),
                forall|i: int| 0 <= i < visible@.len() ==> self.shadow_visible_meshlets@[i] == #[trigger] visible@[i],
                pre.wf(),
                self.chunk_ranges == pre.chunk_ranges,
                self.free_ranges == pre.free_ranges,
                self.meshlet_capacity == pre.meshlet_capacity,
                self.vertex_capacity == pre.vertex_capacity,
                self.tri_capacity == pre.tri_capacity,
                self.active_meshlet_count == pre.active_meshlet_count,
                self.active_vertex_count == pre.active_vertex_count,
                self.active_tri_count == pre.active_tri_count,
                self.meshlet_tail == pre.meshlet_tail,
                self.vertex_tail == pre.vertex_tail,
                self.tri_tail == pre.tri_tail,
                commands@ == Seq::new(t as nat, |i: int| cmds[visible@[i] as int]),
            decreases visible@.len() - t,
        {
            let c = self.shadow_draw_commands[visible[t] as usize];
            commands.push(c);
            assert(commands@ =~= Seq::new((t + 1) as nat, |i: int| cmds[visible@[i] as int]));
            t += 1;
        }
        proof {
            assert(self.ranges() == pre.ranges());
            assert(self.free() == pre.free());
            assert(self.visible().take(visible@.len() as int) =~= visible@);
            assert forall|x: int| #[trigger] shadow_drawn(m, cmds, x) implies visible@.contains(x as u32) by {
                let k = choose|k: u128| #[trigger] m.contains_key(k) && m[k].meshlet_start <= x < m[k].meshlet_start + m[k].meshlet_count;
                let a = choose|a: int| 0 <= a < pairs@.len() && pairs@[a].0 == k;
                assert(pairs@[a].1 == m[k]);
                assert(pairs@[a].1 == pairs@[a].1);
            }
            assert(self.counts_ok(0) && self.counts_ok(1) && self.counts_ok(2));
        }
        ShadowDraws { visible, commands }
    }

    /// Releases `key`'s range, if any, for reuse.
    pub fn record_remove(&mut self, key: ChunkKey)
        requires
            old(self).wf(),
        ensures
            final(self).wf(),
            final(self).ranges() == old(self).ranges().remove(key.packed()),
            final(self).free() == (if old(self).ranges().contains_key(key.packed()) {
                old(self).free().push(old(self).ranges()[key.packed()])
            } else {
                old(self).free()
            }),
            final(self).commands() == (if old(self).ranges().contains_key(key.packed()) {
                cleared(old(self).commands(), old(self).ranges()[key.packed()])
            } else {
                old(self).commands()
            }),
            forall|f: int| 0 <= f < 3 ==> final(self).tail(f) == old(self).tail(f) && #[trigger] final(self).capacity_of(f)
                == old(self).capacity_of(f),
    {
        let pk = key.pack();
        let _ = self.release_range(pk);
    }

    /// Number of meshlets held by resident chunks.
    pub fn active_meshlet_count(&self) -> (n: u32)
        requires
            self.wf(),
        ensures
            n == map_total(self.ranges(), 0),
    {
        self.active_meshlet_count
    }

    /// Meshlet slot capacity.
    pub fn meshlet_capacity(&self) -> (n: usize)
        ensures
            n == self.capacity_of(0),
    {
        self.meshlet_capacity
    }

    /// `(meshlet_start, meshlet_count)` of `key`'s range, when resident.
    pub fn chunk_range(&self, key: ChunkKey) -> (r: Option<(u32, u32)>)
        ensures
            r == (if self.ranges().contains_key(key.packed()) {
                Some((self.ranges()[key.packed()].meshlet_start, self.ranges()[key.packed()].meshlet_count))
            } else {
                None
            }),
    {
        let pk = key.pack();
        match self.chunk_ranges.get(&pk) {
            Some(r) => Some((r.meshlet_start, r.meshlet_count)),
            None => None,
        }
    }

    /// Whether the active meshlets, vertices or triangle indices exceed 90%
    /// of their capacity.
    pub fn needs_grow(&self) -> (b: bool)
        ensures
            b == (10 * self.active(0) > 9 * self.capacity_of(0) || 10 * self.active(1) > 9 * self.capacity_of(1)
                || 10 * self.active(2) > 9 * self.capacity_of(2)),
    {
        let m = 10 * (self.active_meshlet_count as u128) > 9 * (self.meshlet_capacity as u128);
        let v = 10 * (self.active_vertex_count as u128) > 9 * (self.vertex_capacity as u128);
        let t = 10 * (self.active_tri_count as u128) > 9 * (self.tri_capacity as u128);
        m || v || t
    }

    /// Append positions of the meshlet, vertex and triangle-index buffers.
    pub fn append_tails(&self) -> (t: [u32; 3])
        ensures
            forall|f: int| 0 <= f < 3 ==> t[f] == #[trigger] self.tail(f),
    {
        [self.meshlet_tail, self.vertex_tail, self.tri_tail]
    }
}

/// In a well-formed pool no two resident ranges overlap, no resident
/// range overlaps a free one, and every range ends at or before the tails.
pub proof fn law_resident_ranges_disjoint(p: MeshletPool, a: u128, b: u128)
    requires
        p.wf(),
        p.ranges().contains_key(a),
        p.ranges().contains_key(b),
        a != b,
    ensures
        apart(p.ranges()[a], p.ranges()[b]),
        within(p.ranges()[a], p.tail(0), p.tail(1), p.tail(2)),
        forall|i: int| 0 <= i < p.free().len() ==> apart(p.ranges()[a], #[trigger] p.free()[i]),
{
}

/// In a well-formed pool the active counts are the sums over resident
/// ranges, and resident plus free ranges fit below the tails, which fit
/// in the capacities.
pub proof fn law_active_counts(p: MeshletPool, f: int)
    requires
        p.wf(),
        0 <= f < 3,
    ensures
        p.active(f) == map_total(p.ranges(), f),
        map_total(p.ranges(), f) + seq_total(p.free(), f) <= p.tail(f) <= p.capacity_of(f),
{
    assert(p.counts_ok(0) && p.counts_ok(1) && p.counts_ok(2));
}

} // verus!
