//! Tracking which chunks need re-meshing and why.

use std::collections::{HashMap, VecDeque};

use vstd::prelude::*;

use crate::chunk::{ChunkKey, ChunkVoxels};
use super::MeshingJobResult;

verus! {

broadcast use vstd::std_specs::hash::group_hash_axioms;

pub const FACE_POS_X: u8 = 1;
pub const FACE_NEG_X: u8 = 2;
pub const FACE_POS_Y: u8 = 4;
pub const FACE_NEG_Y: u8 = 8;
pub const FACE_POS_Z: u8 = 16;
pub const FACE_NEG_Z: u8 = 32;
/// All six face bits.
pub const ALL_FACE_MASK: u8 = 63;

/// Why a chunk was queued for meshing.
#[derive(Clone, Copy, Debug, PartialEq, Eq)]
pub enum MeshDirtyCause {
    GeneratedPayload,
    BorderTouched { face_mask: u8 },
    FinerNeighborMaskChanged { face_mask: u8, active: bool },
    RevisionMismatch,
}

/// The accumulated reasons for re-meshing one chunk.
#[derive(Debug)]
pub struct MeshDirtyRecord {
    pub causes: Vec<MeshDirtyCause>,
    pub source_revision: u64,
    pub finer_neighbor_face_mask: u8,
}

/// A dirty record as plain values: causes, source revision, finer-neighbour mask.
pub type DirtyEntry = (Seq<MeshDirtyCause>, u64, u8);

pub open spec fn entry_of(r: MeshDirtyRecord) -> DirtyEntry {
    (r.causes@, r.source_revision, r.finer_neighbor_face_mask)
}

/// Meshing bookkeeping: chunk payloads, dirty records keyed by packed chunk
/// key, the FIFO of chunks queued for meshing, and finished meshes.
pub struct MeshingState {
    pub payloads: HashMap<u128, ChunkVoxels>,
    pub dirty: HashMap<u128, MeshDirtyRecord>,
    pub queued: VecDeque<ChunkKey>,
    pub completed_meshes: Vec<MeshingJobResult>,
}

/// The face opposite a single face bit; 0 for anything else.
pub open spec fn opposite(face: u8) -> u8 {
    if face == FACE_POS_X {
        FACE_NEG_X
    } else if face == FACE_NEG_X {
        FACE_POS_X
    } else if face == FACE_POS_Y {
        FACE_NEG_Y
    } else if face == FACE_NEG_Y {
        FACE_POS_Y
    } else if face == FACE_POS_Z {
        FACE_NEG_Z
    } else if face == FACE_NEG_Z {
        FACE_POS_Z
    } else {
        0
    }
}

pub fn opposite_face(face_mask: u8) -> (r: u8)
    ensures
        r == opposite(face_mask),
{
    match face_mask {
        FACE_POS_X => FACE_NEG_X,
        FACE_NEG_X => FACE_POS_X,
        FACE_POS_Y => FACE_NEG_Y,
        FACE_NEG_Y => FACE_POS_Y,
        FACE_POS_Z => FACE_NEG_Z,
        FACE_NEG_Z => FACE_POS_Z,
        _ => 0,
    }
}

/// Faces of a fine chunk that lie on the border of its coarse parent: the
/// negative face on even coordinates, the positive face on odd ones.
pub open spec fn boundary_mask(key: ChunkKey) -> u8 {
    (if key.x as int % 2 == 0 { FACE_NEG_X } else { FACE_POS_X }) | (if key.y as int % 2 == 0 {
        FACE_NEG_Y
    } else {
        FACE_POS_Y
    }) | (if key.z as int % 2 == 0 { FACE_NEG_Z } else { FACE_POS_Z })
}

fn is_even(v: i32) -> (r: bool)
    ensures
        r == (v as int % 2 == 0),
{
    let r = v % 2 == 0;
    assert(r == (v as int % 2 == 0)) by (nonlinear_arith)
        requires r == (v % 2 == 0);
    r
}

pub fn fine_chunk_boundary_mask(key: ChunkKey) -> (m: u8)
    ensures
        m == boundary_mask(key),
{
    let x_face = if is_even(key.x) { FACE_NEG_X } else { FACE_POS_X };
    let y_face = if is_even(key.y) { FACE_NEG_Y } else { FACE_POS_Y };
    let z_face = if is_even(key.z) { FACE_NEG_Z } else { FACE_POS_Z };
    x_face | y_face | z_face
}

// ---------------------------------------------------------------------
// Dirty-state transitions as plain values
// ---------------------------------------------------------------------

/// Dirty entries and the meshing queue.
pub type DirtyState = (Map<u128, DirtyEntry>, Seq<ChunkKey>);

/// Causes after recording `cause` at revision `rev` on top of `prior`: a
/// revision change is recorded first.
pub open spec fn causes_after(prior: DirtyEntry, rev: u64, cause: MeshDirtyCause) -> Seq<MeshDirtyCause> {
    prior.0 + (if prior.1 != rev { seq![MeshDirtyCause::RevisionMismatch] } else { seq![] }) + seq![cause]
}

/// Marking `key` dirty: a new entry is created and queued, an existing one
/// gains the cause (after a revision-mismatch cause when the revision
/// changed) and takes the new revision.
pub open spec fn mark_step(st: DirtyState, key: ChunkKey, cause: MeshDirtyCause, rev: u64) -> DirtyState {
    let pk = key.packed();
    if st.0.contains_key(pk) {
        let e = st.0[pk];
        (st.0.insert(pk, (causes_after(e, rev, cause), rev, e.2)), st.1)
    } else {
        (st.0.insert(pk, (seq![cause], rev, 0u8)), st.1.push(key))
    }
}

/// Face bit `i` in the order +X, -X, +Y, -Y, +Z, -Z.
pub open spec fn face_bit(i: int) -> u8 {
    if i == 0 {
        FACE_POS_X
    } else if i == 1 {
        FACE_NEG_X
    } else if i == 2 {
        FACE_POS_Y
    } else if i == 3 {
        FACE_NEG_Y
    } else if i == 4 {
        FACE_POS_Z
    } else {
        FACE_NEG_Z
    }
}

pub open spec fn face_dx(i: int) -> int {
    if i == 0 { 1 } else if i == 1 { -1 } else { 0 }
}

pub open spec fn face_dy(i: int) -> int {
    if i == 2 { 1 } else if i == 3 { -1 } else { 0 }
}

pub open spec fn face_dz(i: int) -> int {
    if i == 4 { 1 } else if i == 5 { -1 } else { 0 }
}

/// The same-level neighbour across face `i`.
pub open spec fn face_neighbor(key: ChunkKey, i: int) -> ChunkKey {
    ChunkKey {
        x: (key.x + face_dx(i)) as i32,
        y: (key.y + face_dy(i)) as i32,
        z: (key.z + face_dz(i)) as i32,
        lod_level: key.lod_level,
    }
}

/// Marks the neighbours across the faces `i..6` that `face_mask` selects,
/// each with the opposite face as the touched border.
pub open spec fn mark_faces_from(st: DirtyState, key: ChunkKey, face_mask: u8, rev: u64, i: int) -> DirtyState
    decreases 6 - i,
{
    if i >= 6 || i < 0 {
        st
    } else {
        let next = if face_mask & face_bit(i) != 0 {
            mark_step(st, face_neighbor(key, i), MeshDirtyCause::BorderTouched { face_mask: opposite(face_bit(i)) }, rev)
        } else {
            st
        };
        mark_faces_from(next, key, face_mask, rev, i + 1)
    }
}

/// Setting or clearing finer-neighbour face bits of a coarse chunk. The
/// entry is created if missing; when the mask does not change nothing else
/// happens (a created entry stays, unqueued); otherwise the change is
/// recorded and a newly created entry is queued.
pub open spec fn finer_step(st: DirtyState, key: ChunkKey, face_mask: u8, active: bool, rev: u64) -> DirtyState {
    let pk = key.packed();
    let e: DirtyEntry = if st.0.contains_key(pk) { st.0[pk] } else { (seq![], rev, 0u8) };
    let next = if active { e.2 | face_mask } else { e.2 & !face_mask };
    if next == e.2 {
        (st.0.insert(pk, e), st.1)
    } else {
        (
            st.0.insert(
                pk,
                (causes_after(e, rev, MeshDirtyCause::FinerNeighborMaskChanged { face_mask, active }), rev, next),
            ),
            if st.0.contains_key(pk) { st.1 } else { st.1.push(key) },
        )
    }
}

/// Parent coordinate at the next coarser level (floor division by two).
pub open spec fn parent_coord(c: i32) -> int {
    c as int / 2
}

/// The parent coordinate is the floor of half the fine coordinate: the
/// fine chunk is one of the two children `2 * p` and `2 * p + 1` of its
/// parent `p`, for negative coordinates too.
pub proof fn law_parent_coord_is_floor_half(c: i32)
    ensures
        2 * parent_coord(c) <= c < 2 * parent_coord(c) + 2,
        c >= 0 ==> 0 <= parent_coord(c) <= c,
        c < 0 ==> c <= parent_coord(c) < 0,
{
}

/// Mapping `i` (0..6) from a fine chunk's face to the coarse neighbour of its
/// parent across that face and the coarse face that borders the fine chunk.
pub open spec fn coarse_fine_face(i: int) -> u8 {
    if i == 0 {
        FACE_NEG_X
    } else if i == 1 {
        FACE_POS_X
    } else if i == 2 {
        FACE_NEG_Y
    } else if i == 3 {
        FACE_POS_Y
    } else if i == 4 {
        FACE_NEG_Z
    } else {
        FACE_POS_Z
    }
}

pub open spec fn coarse_neighbor(key: ChunkKey, i: int) -> ChunkKey {
    let dx = if i == 0 { -1int } else if i == 1 { 1 } else { 0 };
    let dy = if i == 2 { -1int } else if i == 3 { 1 } else { 0 };
    let dz = if i == 4 { -1int } else if i == 5 { 1 } else { 0 };
    ChunkKey {
        x: (parent_coord(key.x) + dx) as i32,
        y: (parent_coord(key.y) + dy) as i32,
        z: (parent_coord(key.z) + dz) as i32,
        lod_level: (key.lod_level + 1) as u8,
    }
}

pub open spec fn coarse_face(i: int) -> u8 {
    opposite(coarse_fine_face(i))
}

pub open spec fn coarse_from(st: DirtyState, key: ChunkKey, finer_face_mask: u8, activated: bool, rev: u64, i: int) -> DirtyState
    decreases 6 - i,
{
    if i >= 6 || i < 0 {
        st
    } else {
        let next = if finer_face_mask & coarse_fine_face(i) != 0 {
            finer_step(st, coarse_neighbor(key, i), coarse_face(i), activated, rev)
        } else {
            st
        };
        coarse_from(next, key, finer_face_mask, activated, rev, i + 1)
    }
}

/// Queued keys that still have a dirty entry, in queue order.
pub open spec fn live_keys(q: Seq<ChunkKey>, d: Map<u128, DirtyEntry>) -> Seq<ChunkKey>
    decreases q.len(),
{
    if q.len() == 0 {
        seq![]
    } else {
        live_keys(q.drop_last(), d) + (if d.contains_key(q.last().packed()) { seq![q.last()] } else { seq![] })
    }
}

/// Keys can be recovered from their packed encoding.
pub proof fn law_pack_distinct(a: ChunkKey, b: ChunkKey)
    ensures
        (a.packed() == b.packed()) == (a == b),
{
    if a.packed() == b.packed() {
        ChunkKey::lemma_packed_injective(a, b);
    }
}

impl MeshingState {
    /// Dirty records as plain values, keyed by packed chunk key.
    pub open spec fn entries(self) -> Map<u128, DirtyEntry> {
        self.dirty@.map_values(|r: MeshDirtyRecord| entry_of(r))
    }

    pub open spec fn state(self) -> DirtyState {
        (self.entries(), self.queued@)
    }

    /// Records `cause` for `key` at `source_revision`, queueing the key when
    /// it had no dirty record.
    pub fn mark_dirty(&mut self, key: ChunkKey, cause: MeshDirtyCause, source_revision: u64)
        ensures
            final(self).state() == mark_step(old(self).state(), key, cause, source_revision),
            final(self).payloads@ == old(self).payloads@,
            final(self).completed_meshes@ == old(self).completed_meshes@,
    {
        let pk = key.pack();
        let removed = self.dirty.remove(&pk);
        match removed {
            Some(mut record) => {
                let ghost prior = entry_of(record);
                if record.source_revision != source_revision {
                    record.causes.push(MeshDirtyCause::RevisionMismatch);
                    record.source_revision = source_revision;
                }
                record.causes.push(cause);
                proof {
                    assert(record.causes@ =~= causes_after(prior, source_revision, cause));
                }
                self.dirty.insert(pk, record);
            },
            None => {
                let mut causes: Vec<MeshDirtyCause> = Vec::new();
                causes.push(cause);
                proof {
                    assert(causes@ =~= seq![cause]);
                }
                self.dirty.insert(
                    pk,
                    MeshDirtyRecord { causes, source_revision, finer_neighbor_face_mask: 0 },
                );
                self.queued.push_back(key);
            },
        }
        proof {
            let expected = mark_step(old(self).state(), key, cause, source_revision);
            assert(self.entries() =~= expected.0);
        }
    }
}

fn face_bit_at(i: usize) -> (f: u8)
    requires
        i < 6,
    ensures
        f == face_bit(i as int),
{
    match i {
        0 => FACE_POS_X,
        1 => FACE_NEG_X,
        2 => FACE_POS_Y,
        3 => FACE_NEG_Y,
        4 => FACE_POS_Z,
        _ => FACE_NEG_Z,
    }
}

fn coarse_fine_face_at(i: usize) -> (f: u8)
    requires
        i < 6,
    ensures
        f == coarse_fine_face(i as int),
{
    match i {
        0 => FACE_NEG_X,
        1 => FACE_POS_X,
        2 => FACE_NEG_Y,
        3 => FACE_POS_Y,
        4 => FACE_NEG_Z,
        _ => FACE_POS_Z,
    }
}

/// Floor division by two (`div_euclid(2)`).
fn floor_half(v: i32) -> (r: i32)
    ensures
        r as int == parent_coord(v),
        2 * r <= v < 2 * r + 2,
{
    if v >= 0 {
        let r = v / 2;
        assert(r as int == v as int / 2) by (nonlinear_arith)
            requires r == v / 2, v >= 0;
        r
    } else {
        let w = -(v + 1);
        let h = w / 2;
        let r = -h - 1;
        assert(r as int == v as int / 2) by (nonlinear_arith)
            requires w == -(v + 1), w >= 0, h == w / 2, r == -h - 1;
        r
    }
}

impl MeshingState {
    /// Marks the same-level neighbours across the faces in `face_mask` dirty,
    /// each with the touched border seen from the neighbour's side.
    pub fn mark_face_neighbors_dirty(&mut self, key: ChunkKey, face_mask: u8, source_revision: u64)
        requires
            face_mask & FACE_POS_X != 0 ==> key.x < i32::MAX,
            face_mask & FACE_NEG_X != 0 ==> key.x > i32::MIN,
            face_mask & FACE_POS_Y != 0 ==> key.y < i32::MAX,
            face_mask & FACE_NEG_Y != 0 ==> key.y > i32::MIN,
            face_mask & FACE_POS_Z != 0 ==> key.z < i32::MAX,
            face_mask & FACE_NEG_Z != 0 ==> key.z > i32::MIN,
        ensures
            final(self).state() == mark_faces_from(old(self).state(), key, face_mask, source_revision, 0),
            final(self).payloads@ == old(self).payloads@,
            final(self).completed_meshes@ == old(self).completed_meshes@,
    {
        let mut i: usize = 0;
        while i < 6
            invariant
                i <= 6,
                face_mask & FACE_POS_X != 0 ==> key.x < i32::MAX,
                face_mask & FACE_NEG_X != 0 ==> key.x > i32::MIN,
                face_mask & FACE_POS_Y != 0 ==> key.y < i32::MAX,
                face_mask & FACE_NEG_Y != 0 ==> key.y > i32::MIN,
                face_mask & FACE_POS_Z != 0 ==> key.z < i32::MAX,
                face_mask & FACE_NEG_Z != 0 ==> key.z > i32::MIN,
                mark_faces_from(self.state(), key, face_mask, source_revision, i as int)
                    == mark_faces_from(old(self).state(), key, face_mask, source_revision, 0),
                self.payloads@ == old(self).payloads@,
                self.completed_meshes@ == old(self).completed_meshes@,
            decreases 6 - i,
        {
            let face = face_bit_at(i);
            if face_mask & face != 0 {
                let dx: i32 = if i == 0 { 1 } else if i == 1 { -1 } else { 0 };
                let dy: i32 = if i == 2 { 1 } else if i == 3 { -1 } else { 0 };
                let dz: i32 = if i == 4 { 1 } else if i == 5 { -1 } else { 0 };
                let neighbor = ChunkKey::new(key.x + dx, key.y + dy, key.z + dz, key.lod_level);
                proof {
                    assert(neighbor == face_neighbor(key, i as int));
                }
                self.mark_dirty(neighbor, MeshDirtyCause::BorderTouched { face_mask: opposite_face(face) }, source_revision);
            }
            i += 1;
        }
    }

    /// Sets (`active`) or clears the finer-neighbour face bits of a coarse
    /// chunk's dirty record, recording the change when the mask changes.
    pub fn update_finer_neighbor_face_mask(&mut self, coarse_key: ChunkKey, face_mask: u8, active: bool, source_revision: u64)
        ensures
            final(self).state() == finer_step(old(self).state(), coarse_key, face_mask, active, source_revision),
            final(self).payloads@ == old(self).payloads@,
            final(self).completed_meshes@ == old(self).completed_meshes@,
    {
        let pk = coarse_key.pack();
        let removed = self.dirty.remove(&pk);
        let existed = removed.is_some();
        let mut record = match removed {
            Some(r) => r,
            None => MeshDirtyRecord { causes: Vec::new(), source_revision, finer_neighbor_face_mask: 0 },
        };
        let ghost prior = entry_of(record);
        proof {
            assert(prior == (if old(self).state().0.contains_key(pk) { old(self).state().0[pk] } else { (seq![], source_revision, 0u8) }));
        }
        let next_mask = if active {
            record.finer_neighbor_face_mask | face_mask
        } else {
            record.finer_neighbor_face_mask & !face_mask
        };
        if next_mask == record.finer_neighbor_face_mask {
            self.dirty.insert(pk, record);
            proof {
                assert(self.entries() =~= old(self).entries().insert(pk, prior));
            }
            return;
        }
        if record.source_revision != source_revision {
            record.causes.push(MeshDirtyCause::RevisionMismatch);
            record.source_revision = source_revision;
        }
        record.finer_neighbor_face_mask = next_mask;
        record.causes.push(MeshDirtyCause::FinerNeighborMaskChanged { face_mask, active });
        proof {
            assert(record.causes@ =~= causes_after(prior, source_revision, MeshDirtyCause::FinerNeighborMaskChanged { face_mask, active }));
        }
        self.dirty.insert(pk, record);
        if !existed {
            self.queued.push_back(coarse_key);
        }
        proof {
            let expected = finer_step(old(self).state(), coarse_key, face_mask, active, source_revision);
            assert(self.entries() =~= expected.0);
        }
    }

    /// Propagates a change of a fine chunk's activity to the coarse
    /// neighbours of its parent across the faces in `finer_face_mask`.
    /// Nothing happens at the coarsest level of detail.
    pub fn mark_coarse_lod_neighbors_dirty(&mut self, key: ChunkKey, finer_face_mask: u8, activated: bool, source_revision: u64)
        ensures
            final(self).state() == if key.lod_level == u8::MAX {
                old(self).state()
            } else {
                coarse_from(old(self).state(), key, finer_face_mask, activated, source_revision, 0)
            },
            final(self).payloads@ == old(self).payloads@,
            final(self).completed_meshes@ == old(self).completed_meshes@,
    {
        if key.lod_level == u8::MAX {
            return;
        }
        let coarse_lod = key.lod_level + 1;
        let parent_x = floor_half(key.x);
        let parent_y = floor_half(key.y);
        let parent_z = floor_half(key.z);
        let mut i: usize = 0;
        while i < 6
            invariant
                i <= 6,
                key.lod_level < u8::MAX,
                coarse_lod == key.lod_level + 1,
                parent_x as int == parent_coord(key.x),
                parent_y as int == parent_coord(key.y),
                parent_z as int == parent_coord(key.z),
                coarse_from(self.state(), key, finer_face_mask, activated, source_revision, i as int)
                    == coarse_from(old(self).state(), key, finer_face_mask, activated, source_revision, 0),
                self.payloads@ == old(self).payloads@,
                self.completed_meshes@ == old(self).completed_meshes@,
            decreases 6 - i,
        {
            let finer_face = coarse_fine_face_at(i);
            if finer_face_mask & finer_face != 0 {
                let dx: i32 = if i == 0 { -1 } else if i == 1 { 1 } else { 0 };
                let dy: i32 = if i == 2 { -1 } else if i == 3 { 1 } else { 0 };
                let dz: i32 = if i == 4 { -1 } else if i == 5 { 1 } else { 0 };
                let coarse_key = ChunkKey::new(parent_x + dx, parent_y + dy, parent_z + dz, coarse_lod);
                proof {
                    assert(coarse_key == coarse_neighbor(key, i as int));
                }
                self.update_finer_neighbor_face_mask(coarse_key, opposite_face(finer_face), activated, source_revision);
            }
            i += 1;
        }
    }

    /// Pops queued keys until `max` keys that still have a dirty record have
    /// been collected or the queue is empty; keys without a record are
    /// dropped from the queue. Dirty records are left in place.
    pub fn take_dirty_batch(&mut self, max: usize) -> (batch: Vec<ChunkKey>)
        ensures
            final(self).queued@.len() <= old(self).queued@.len(),
            final(self).queued@ == old(self).queued@.skip(old(self).queued@.len() - final(self).queued@.len()),
            batch@ == live_keys(
                old(self).queued@.take(old(self).queued@.len() - final(self).queued@.len()),
                old(self).entries(),
            ),
            batch.len() <= max,
            batch.len() < max ==> final(self).queued@.len() == 0,
            final(self).queued@.len() < old(self).queued@.len() ==> live_keys(
                old(self).queued@.take(old(self).queued@.len() - final(self).queued@.len() - 1),
                old(self).entries(),
            ).len() < max,
            final(self).dirty@ == old(self).dirty@,
            final(self).payloads@ == old(self).payloads@,
            final(self).completed_meshes@ == old(self).completed_meshes@,
    {
        let cap = if max < self.queued.len() { max } else { self.queued.len() };
        let mut batch: Vec<ChunkKey> = Vec::with_capacity(cap);
        let ghost q0 = self.queued@;
        let ghost d0 = self.entries();
        loop
            invariant
                q0 == old(self).queued@,
                d0 == old(self).entries(),
                self.dirty@ == old(self).dirty@,
                self.payloads@ == old(self).payloads@,
                self.completed_meshes@ == old(self).completed_meshes@,
                self.queued@.len() <= q0.len(),
                self.queued@ == q0.skip(q0.len() - self.queued@.len()),
                batch@ == live_keys(q0.take(q0.len() - self.queued@.len()), d0),
                batch.len() <= max,
                self.queued@.len() < q0.len() ==> live_keys(q0.take(q0.len() - self.queued@.len() - 1), d0).len() < max,
            ensures
                batch.len() == max || self.queued@.len() == 0,
            decreases self.queued@.len(),
        {
            if batch.len() >= max {
                break;
            }
            let ghost before = self.queued@;
            match self.queued.pop_front() {
                None => {
                    break;
                },
                Some(key) => {
                    let ghost taken = q0.len() - before.len();
                    proof {
                        assert(key == q0[taken]);
                        let t = q0.take(taken + 1);
                        assert(t.drop_last() =~= q0.take(taken));
                        assert(t.last() == key);
                        assert(self.queued@ =~= q0.skip(taken + 1));
                    }
                    if self.dirty.contains_key(&key.pack()) {
                        batch.push(key);
                    }
                },
            }
        }
        batch
    }
}

impl Default for MeshingState {
    fn default() -> (s: MeshingState)
        ensures
            s.payloads@ == Map::<u128, ChunkVoxels>::empty(),
            s.dirty@ == Map::<u128, MeshDirtyRecord>::empty(),
            s.queued@ == Seq::<ChunkKey>::empty(),
            s.completed_meshes@ == Seq::<MeshingJobResult>::empty(),
    {
        MeshingState {
            payloads: HashMap::new(),
            dirty: HashMap::new(),
            queued: VecDeque::new(),
            completed_meshes: Vec::new(),
        }
    }
}

} // verus!
