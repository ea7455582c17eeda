//! Slot bookkeeping of the chunk pool.
//!
//! Every resident chunk owns one fixed-size slot of the shared vertex and
//! index buffers. Active slots are also listed densely, one draw index
//! each, so that culling can walk `0..active_draw_count`. Removing a chunk
//! moves the last draw into the freed draw index.

use std::collections::{HashMap, VecDeque};

use vstd::prelude::*;

use crate::chunk::ChunkKey;
use crate::meshing::packing::{flat_indices_of, MeshletMesh, PackedMesh, PackedVertex};

verus! {

broadcast use vstd::std_specs::hash::group_hash_axioms;

/// Number of chunk slots a new pool starts with.
pub const INITIAL_CAPACITY: usize = 1024;

/// Largest number of quads a chunk mesh may occupy in its slot.
pub const MAX_QUADS_PER_CHUNK: usize = 4096;

/// Largest slot count for which every slot's first index fits in `u32`.
pub const MAX_SLOT_CAPACITY: usize = 174762;

/// Vertices reserved per slot.
pub fn vertex_slot_stride_vertices() -> (n: usize)
    ensures
        n == 16384,
{
    MAX_QUADS_PER_CHUNK * 4
}

/// Indices reserved per slot.
pub fn index_slot_stride_indices() -> (n: usize)
    ensures
        n == 24576,
{
    MAX_QUADS_PER_CHUNK * 6
}

/// Bytes of vertex storage per slot (8 bytes per packed vertex).
pub fn vertex_slot_stride_bytes() -> (n: usize)
    ensures
        n == 131072,
{
    vertex_slot_stride_vertices() * 8
}

/// Bytes of index storage per slot (4 bytes per index).
pub fn index_slot_stride_bytes() -> (n: usize)
    ensures
        n == 98304,
{
    index_slot_stride_indices() * 4
}

/// `x` rounded up to a multiple of 16.
pub open spec fn align16(x: int) -> int {
    (x + 15) / 16 * 16
}

/// Byte offsets of the four scene-buffer regions and its total size:
/// 64-byte instances, 20-byte indirect templates, 4-byte draw slots and
/// 20-byte dense indirect commands, each region starting 16-byte aligned.
pub open spec fn scene_regions(capacity: int) -> (int, int, int, int, int) {
    let indirect = align16(64 * capacity);
    let slot = align16(indirect + 20 * capacity);
    let dense = align16(slot + 4 * capacity);
    (0, indirect, slot, dense, dense + 20 * capacity)
}

fn align_up16(offset: u64) -> (r: u64)
    requires
        offset + 15 <= u64::MAX,
    ensures
        r == align16(offset as int),
        offset <= r <= offset + 15,
{
    (offset + 15) / 16 * 16
}

/// Region offsets of the scene buffer for `capacity` slots:
/// `(instance, indirect_template, draw_slot, dense_indirect, total_size)`.
pub fn scene_buffer_region_offsets(capacity: usize) -> (r: (u64, u64, u64, u64, u64))
    requires
        108 * capacity + 45 <= u64::MAX,
    ensures
        r.0 == scene_regions(capacity as int).0,
        r.1 == scene_regions(capacity as int).1,
        r.2 == scene_regions(capacity as int).2,
        r.3 == scene_regions(capacity as int).3,
        r.4 == scene_regions(capacity as int).4,
{
    let cap = capacity as u64;
    let instance_offset: u64 = 0;
    let instance_size = cap * 64;
    let indirect_template_offset = align_up16(instance_offset + instance_size);
    let indirect_template_size = cap * 20;
    let draw_slot_offset = align_up16(indirect_template_offset + indirect_template_size);
    let draw_slot_size = cap * 4;
    let dense_indirect_offset = align_up16(draw_slot_offset + draw_slot_size);
    let dense_indirect_size = cap * 20;
    let total_size = dense_indirect_offset + dense_indirect_size;
    (instance_offset, indirect_template_offset, draw_slot_offset, dense_indirect_offset, total_size)
}

/// One indexed indirect draw, laid out as the GPU reads it.
#[derive(Clone, Copy, Debug, PartialEq, Eq)]
pub struct DrawIndexedIndirectCommand {
    pub index_count: u32,
    pub instance_count: u32,
    pub first_index: u32,
    pub vertex_offset: i32,
    pub first_instance: u32,
}

/// The all-zero command, which draws nothing.
pub open spec fn zero_command() -> DrawIndexedIndirectCommand {
    DrawIndexedIndirectCommand {
        index_count: 0,
        instance_count: 0,
        first_index: 0,
        vertex_offset: 0,
        first_instance: 0,
    }
}

impl Default for DrawIndexedIndirectCommand {
    fn default() -> (c: DrawIndexedIndirectCommand)
        ensures
            c == zero_command(),
    {
        DrawIndexedIndirectCommand {
            index_count: 0,
            instance_count: 0,
            first_index: 0,
            vertex_offset: 0,
            first_instance: 0,
        }
    }
}

/// The draw template of a chunk in `slot` with `index_count` indices: one
/// instance, whose index is the slot, drawing from the slot's storage.
pub open spec fn slot_command(slot: u32, index_count: nat) -> DrawIndexedIndirectCommand {
    DrawIndexedIndirectCommand {
        index_count: index_count as u32,
        instance_count: 1,
        first_index: (slot * 24576) as u32,
        vertex_offset: (slot * 16384) as i32,
        first_instance: slot,
    }
}

/// Points draw index `draw_index` at `slot_id`.
#[derive(Clone, Copy, Debug, PartialEq, Eq)]
pub struct DrawSlotWrite {
    pub draw_index: u32,
    pub slot_id: u32,
}

/// Sets the dense indirect command at `draw_index`.
#[derive(Clone, Copy, Debug, PartialEq, Eq)]
pub struct DenseIndirectWrite {
    pub draw_index: u32,
    pub command: DrawIndexedIndirectCommand,
}

/// What a chunk's GPU instance record is computed from: its key (origin
/// and scale) and the voxel-space bounds of its mesh.
#[derive(Clone, Copy, Debug, PartialEq, Eq)]
pub struct ChunkInstance {
    pub key: ChunkKey,
    pub aabb_min: [i32; 3],
    pub aabb_max: [i32; 3],
}

/// Everything an upload of one chunk mesh writes.
pub struct SlotUpload {
    pub slot_id: u32,
    pub draw_slot_write: Option<DrawSlotWrite>,
    pub dense_indirect_write: DenseIndirectWrite,
    pub vertex_offset_bytes: u64,
    pub index_offset_bytes: u64,
    pub vertex_bytes: Vec<u8>,
    pub index_bytes: Vec<u8>,
    pub instance: ChunkInstance,
    pub indirect: DrawIndexedIndirectCommand,
}

/// Everything a removal of one chunk writes.
pub struct SlotRemove {
    pub slot_id: u32,
    pub draw_slot_writes: Vec<DrawSlotWrite>,
    pub dense_indirect_writes: Vec<DenseIndirectWrite>,
}

/// Why a chunk pool operation failed.
#[derive(Clone, Copy, Debug, PartialEq, Eq)]
pub enum ChunkPoolError {
    /// A new chunk arrived while every slot was taken.
    Exhausted { capacity: usize },
    /// A growth request did not exceed the current capacity.
    CapacityNotLarger { old_capacity: usize, new_capacity: usize },
}

impl ChunkPoolError {
    /// Short description of the failure.
    pub fn message(&self) -> (s: String)
        ensures
            s@ == (match *self {
                ChunkPoolError::Exhausted { .. } => "chunk pool exhausted"@,
                ChunkPoolError::CapacityNotLarger { .. } => "grow: new_capacity must exceed old"@,
            }),
    {
        match self {
            ChunkPoolError::Exhausted { .. } => "chunk pool exhausted".to_owned(),
            ChunkPoolError::CapacityNotLarger { .. } => "grow: new_capacity must exceed old".to_owned(),
        }
    }
}

/// 32-bit words of a vertex list, two per vertex.
pub open spec fn vertex_words(vs: Seq<PackedVertex>) -> Seq<u32> {
    Seq::new(2 * vs.len(), |i: int| vs[i / 2].0[i % 2])
}

/// Little-endian value of four bytes starting at `at`.
pub open spec fn le_word(b: Seq<u8>, at: int) -> int {
    b[at] + 256 * b[at + 1] + 65536 * b[at + 2] + 16777216 * b[at + 3]
}

/// Big-endian value of four bytes starting at `at`.
pub open spec fn be_word(b: Seq<u8>, at: int) -> int {
    b[at + 3] + 256 * b[at + 2] + 65536 * b[at + 1] + 16777216 * b[at]
}

/// `bytes` holds each word of `words` in four bytes, all in one byte order.
pub open spec fn bytes_of_words(words: Seq<u32>, bytes: Seq<u8>) -> bool {
    &&& bytes.len() == 4 * words.len()
    &&& (forall|i: int| 0 <= i < words.len() ==> le_word(bytes, 4 * i) == #[trigger] words[i])
        || (forall|i: int| 0 <= i < words.len() ==> be_word(bytes, 4 * i) == #[trigger] words[i])
}

/// `bytemuck::cast_slice` from `u32` words to bytes, copied out: four
/// bytes per word in the machine's byte order (little- or big-endian; the
/// contract does not say which).
#[verifier::external_body]
fn cast_words_to_bytes(words: &[u32]) -> (bytes: Vec<u8>)
    ensures
        bytes_of_words(words@, bytes@),
{
    bytemuck::cast_slice::<u32, u8>(words).to_vec()
}

/// The words of `vertices`, two per vertex.
fn flatten_vertices(vertices: &Vec<PackedVertex>) -> (words: Vec<u32>)
    requires
        2 * vertices@.len() <= usize::MAX,
    ensures
        words@ == vertex_words(vertices@),
{
    let mut words: Vec<u32> = Vec::new();
    let mut i: usize = 0;
    while i < vertices.len()
        invariant
            i <= vertices@.len(),
            2 * vertices@.len() <= usize::MAX,
            words@ =~= vertex_words(vertices@.take(i as int)),
        decreases vertices@.len() - i,
    {
        let v = vertices[i];
        words.push(v.0[0]);
        words.push(v.0[1]);
        proof {
            let next = vertex_words(vertices@.take(i + 1));
            assert forall|j: int| 0 <= j < next.len() implies next[j] == words@[j] by {
                if j < 2 * i {
                    assert(vertices@.take(i + 1)[j / 2] == vertices@.take(i as int)[j / 2]);
                }
            }
            assert(words@ =~= next);
        }
        i += 1;
    }
    assert(vertices@.take(i as int) =~= vertices@);
    words
}

/// Assigns chunks to slots and keeps the dense draw list.
pub struct SlotAllocator {
    chunk_to_slot: HashMap<u128, u32>,
    slot_to_chunk: Vec<Option<ChunkKey>>,
    free_slots: Vec<u32>,
    slot_to_draw_index: Vec<Option<u32>>,
    draw_index_to_slot: Vec<u32>,
    instance_shadow: Vec<Option<ChunkInstance>>,
    indirect_shadow: Vec<DrawIndexedIndirectCommand>,
}

/// `draws` after the entry at `d` is replaced by the last one and the
/// last one removed.
pub open spec fn swap_removed(draws: Seq<u32>, d: int) -> Seq<u32> {
    draws.update(d, draws.last()).drop_last()
}

impl SlotAllocator {
    /// Slot of each resident chunk, keyed by packed chunk key.
    pub closed spec fn slots(self) -> Map<u128, u32> {
        self.chunk_to_slot@
    }

    /// Owner of each slot.
    pub closed spec fn owners(self) -> Seq<Option<ChunkKey>> {
        self.slot_to_chunk@
    }

    /// Free slots; the last one is handed out next.
    pub closed spec fn free(self) -> Seq<u32> {
        self.free_slots@
    }

    /// Draw index of each slot.
    pub closed spec fn draw_of(self) -> Seq<Option<u32>> {
        self.slot_to_draw_index@
    }

    /// Slot drawn at each draw index.
    pub closed spec fn draws(self) -> Seq<u32> {
        self.draw_index_to_slot@
    }

    /// Instance record of each slot.
    pub closed spec fn instances(self) -> Seq<Option<ChunkInstance>> {
        self.instance_shadow@
    }

    /// Indirect draw template of each slot.
    pub closed spec fn templates(self) -> Seq<DrawIndexedIndirectCommand> {
        self.indirect_shadow@
    }

    /// Number of slots.
    pub open spec fn cap(self) -> nat {
        self.owners().len()
    }

    /// Resident chunks and draw indices are in one-to-one correspondence
    /// with the owned slots; every other slot is free, once.
    pub closed spec fn wf(self) -> bool {
        let c = self.cap();
        &&& c <= MAX_SLOT_CAPACITY
        &&& self.draw_of().len() == c
        &&& self.instances().len() == c
        &&& self.templates().len() == c
        &&& self.free().len() + self.draws().len() == c
        &&& self.slots().len() == self.draws().len()
        &&& forall|k: u128| #[trigger]
            self.slots().contains_key(k) ==> {
                &&& self.slots()[k] < c
                &&& self.owners()[self.slots()[k] as int] == Some(
                    self.owners()[self.slots()[k] as int]->0,
                )
                &&& self.owners()[self.slots()[k] as int]->0.packed() == k
            }
        &&& forall|s: int|
            0 <= s < c && #[trigger] self.owners()[s] is Some ==> {
                &&& self.slots().contains_key(self.owners()[s]->0.packed())
                &&& self.slots()[self.owners()[s]->0.packed()] == s
                &&& self.draw_of()[s] is Some
            }
        &&& forall|s: int|
            0 <= s < c && #[trigger] self.draw_of()[s] is Some ==> {
                &&& self.draw_of()[s]->0 < self.draws().len()
                &&& self.draws()[self.draw_of()[s]->0 as int] == s
            }
        &&& forall|d: int|
            0 <= d < self.draws().len() ==> {
                &&& #[trigger] self.draws()[d] < c
                &&& self.draw_of()[self.draws()[d] as int] == Some(d as u32)
                &&& self.owners()[self.draws()[d] as int] is Some
            }
        &&& forall|i: int|
            0 <= i < self.free().len() ==> {
                &&& #[trigger] self.free()[i] < c
                &&& self.owners()[self.free()[i] as int] is None
                &&& self.draw_of()[self.free()[i] as int] is None
            }
        &&& forall|i: int, j: int|
            0 <= i < j < self.free().len() ==> self.free()[i] != self.free()[j]
    }

    /// An allocator with `capacity` free slots, handed out lowest first.
    pub fn with_capacity(capacity: usize) -> (a: SlotAllocator)
        requires
            capacity <= MAX_SLOT_CAPACITY,
        ensures
            a.wf(),
            a.cap() == capacity,
            a.slots() == Map::<u128, u32>::empty(),
            a.draws() == Seq::<u32>::empty(),
            a.free() == Seq::new(capacity as nat, |i: int| (capacity - 1 - i) as u32),
            a.templates() == Seq::new(capacity as nat, |i: int| zero_command()),
            a.instances() == Seq::new(capacity as nat, |i: int| None::<ChunkInstance>),
    {
        let mut slot_to_chunk: Vec<Option<ChunkKey>> = Vec::new();
        let mut free_slots: Vec<u32> = Vec::new();
        let mut slot_to_draw_index: Vec<Option<u32>> = Vec::new();
        let mut instance_shadow: Vec<Option<ChunkInstance>> = Vec::new();
        let mut indirect_shadow: Vec<DrawIndexedIndirectCommand> = Vec::new();
        let mut i: usize = 0;
        while i < capacity
            invariant
                i <= capacity <= MAX_SLOT_CAPACITY,
                slot_to_chunk@ == Seq::new(i as nat, |j: int| None::<ChunkKey>),
                slot_to_draw_index@ == Seq::new(i as nat, |j: int| None::<u32>),
                instance_shadow@ == Seq::new(i as nat, |j: int| None::<ChunkInstance>),
                indirect_shadow@ == Seq::new(i as nat, |j: int| zero_command()),
                free_slots@ == Seq::new(i as nat, |j: int| (capacity - 1 - j) as u32),
            decreases capacity - i,
        {
            slot_to_chunk.push(None);
            slot_to_draw_index.push(None);
            instance_shadow.push(None);
            indirect_shadow.push(DrawIndexedIndirectCommand::default());
            free_slots.push((capacity - 1 - i) as u32);
            proof {
                assert(slot_to_chunk@ =~= Seq::new((i + 1) as nat, |j: int| None::<ChunkKey>));
                assert(slot_to_draw_index@ =~= Seq::new((i + 1) as nat, |j: int| None::<u32>));
                assert(instance_shadow@ =~= Seq::new((i + 1) as nat, |j: int| None::<ChunkInstance>));
                assert(indirect_shadow@ =~= Seq::new((i + 1) as nat, |j: int| zero_command()));
                assert(free_slots@ =~= Seq::new((i + 1) as nat, |j: int| (capacity - 1 - j) as u32));
            }
            i += 1;
        }
        let a = SlotAllocator {
            chunk_to_slot: HashMap::new(),
            slot_to_chunk,
            free_slots,
            slot_to_draw_index,
            draw_index_to_slot: Vec::new(),
            instance_shadow,
            indirect_shadow,
        };
        proof {
            assert(a.slots() =~= Map::<u128, u32>::empty());
            assert(a.draws() =~= Seq::<u32>::empty());
        }
        a
    }

    /// Assigns `key` a slot (its own when resident, else the next free
    /// one, appended to the draw list) and describes the upload of `mesh`.
    pub fn prepare_upload(&mut self, key: ChunkKey, mesh: &PackedMesh) -> (r: Result<SlotUpload, ChunkPoolError>)
        requires
            old(self).wf(),
            2 * mesh.vertices@.len() <= usize::MAX,
        ensures
            final(self).wf(),
            final(self).cap() == old(self).cap(),
            match r {
                Ok(up) => {
                    let k = key.packed();
                    let s = up.slot_id;
                    &&& old(self).slots().contains_key(k) ==> {
                        &&& s == old(self).slots()[k]
                        &&& final(self).slots() == old(self).slots()
                        &&& final(self).draws() == old(self).draws()
                        &&& final(self).free() == old(self).free()
                        &&& up.draw_slot_write is None
                        &&& old(self).draw_of()[s as int] == Some(up.dense_indirect_write.draw_index)
                    }
                    &&& !old(self).slots().contains_key(k) ==> {
                        &&& old(self).free().len() > 0
                        &&& s == old(self).free().last()
                        &&& final(self).slots() == old(self).slots().insert(k, s)
                        &&& final(self).draws() == old(self).draws().push(s)
                        &&& final(self).free() == old(self).free().drop_last()
                        &&& up.draw_slot_write == Some(
                            DrawSlotWrite { draw_index: old(self).draws().len() as u32, slot_id: s },
                        )
                        &&& up.dense_indirect_write.draw_index == old(self).draws().len()
                    }
                    &&& up.indirect == slot_command(s, mesh.indices@.len())
                    &&& up.dense_indirect_write.command == up.indirect
                    &&& up.vertex_offset_bytes == s * 131072
                    &&& up.index_offset_bytes == s * 98304
                    &&& up.instance == (ChunkInstance { key, aabb_min: mesh.aabb_min, aabb_max: mesh.aabb_max })
                    &&& bytes_of_words(vertex_words(mesh.vertices@), up.vertex_bytes@)
                    &&& bytes_of_words(mesh.indices@, up.index_bytes@)
                    &&& final(self).templates() == old(self).templates().update(s as int, up.indirect)
                    &&& final(self).instances() == old(self).instances().update(s as int, Some(up.instance))
                },
                Err(e) => {
                    &&& !old(self).slots().contains_key(key.packed())
                    &&& old(self).free().len() == 0
                    &&& e == ChunkPoolError::Exhausted { capacity: old(self).cap() as usize }
                    &&& final(self).slots() == old(self).slots()
                    &&& final(self).draws() == old(self).draws()
                    &&& final(self).free() == old(self).free()
                    &&& final(self).templates() == old(self).templates()
                    &&& final(self).instances() == old(self).instances()
                },
            },
    {
        let k = key.pack();
        let existing = match self.chunk_to_slot.get(&k) {
            Some(s) => Some(*s),
            None => None,
        };
        let (slot_id, draw_index, draw_slot_write) = match existing {
            Some(slot_id) => {
                proof {
                    assert(self.slots().contains_key(k));
                }
                let draw_index = match self.slot_to_draw_index[slot_id as usize] {
                    Some(d) => d,
                    None => {
                        proof {
                            assert(self.owners()[slot_id as int] is Some);
                        }
                        return Err(ChunkPoolError::Exhausted { capacity: self.slot_to_chunk.len() });
                    },
                };
                (slot_id, draw_index, None)
            },
            None => {
                if self.free_slots.len() == 0 {
                    return Err(ChunkPoolError::Exhausted { capacity: self.slot_to_chunk.len() });
                }
                let ghost pre = *self;
                let slot_id = self.free_slots.pop().unwrap();
                proof {
                    assert(pre.free()[pre.free().len() - 1] == slot_id);
                }
                self.chunk_to_slot.insert(k, slot_id);
                self.slot_to_chunk.set(slot_id as usize, Some(key));
                let draw_index = self.draw_index_to_slot.len() as u32;
                self.slot_to_draw_index.set(slot_id as usize, Some(draw_index));
                self.draw_index_to_slot.push(slot_id);
                proof {
                    let c = pre.cap();
                    assert(pre.owners()[slot_id as int] is None);
                    assert(!pre.slots().contains_key(k));
                    assert(self.slots().len() == self.draws().len());
                    assert forall|kk: u128| #[trigger] self.slots().contains_key(kk) implies {
                        &&& self.slots()[kk] < c
                        &&& self.owners()[self.slots()[kk] as int] == Some(
                            self.owners()[self.slots()[kk] as int]->0,
                        )
                        &&& self.owners()[self.slots()[kk] as int]->0.packed() == kk
                    } by {
                        if kk != k {
                            assert(pre.slots().contains_key(kk));
                            assert(pre.slots()[kk] != slot_id);
                        }
                    }
                    assert forall|s: int| 0 <= s < c && #[trigger] self.owners()[s] is Some implies {
                        &&& self.slots().contains_key(self.owners()[s]->0.packed())
                        &&& self.slots()[self.owners()[s]->0.packed()] == s
                        &&& self.draw_of()[s] is Some
                    } by {
                        if s != slot_id {
                            assert(pre.owners()[s] is Some);
                            if self.owners()[s]->0.packed() == k {
                                assert(pre.slots().contains_key(k));
                            }
                        }
                    }
                    assert forall|s: int| 0 <= s < c && #[trigger] self.draw_of()[s] is Some implies {
                        &&& self.draw_of()[s]->0 < self.draws().len()
                        &&& self.draws()[self.draw_of()[s]->0 as int] == s
                    } by {
                        if s != slot_id {
                            assert(pre.draw_of()[s] is Some);
                        }
                    }
                    assert forall|d: int| 0 <= d < self.draws().len() implies {
                        &&& #[trigger] self.draws()[d] < c
                        &&& self.draw_of()[self.draws()[d] as int] == Some(d as u32)
                        &&& self.owners()[self.draws()[d] as int] is Some
                    } by {
                        if d < pre.draws().len() {
                            assert(pre.draws()[d] == self.draws()[d]);
                            assert(pre.owners()[pre.draws()[d] as int] is Some);
                        }
                    }
                    assert forall|i: int| 0 <= i < self.free().len() implies {
                        &&& #[trigger] self.free()[i] < c
                        &&& self.owners()[self.free()[i] as int] is None
                        &&& self.draw_of()[self.free()[i] as int] is None
                    } by {
                        assert(pre.free()[i] == self.free()[i]);
                        assert(pre.free()[i] != pre.free()[pre.free().len() - 1]);
                    }
                }
                (slot_id, draw_index, Some(DrawSlotWrite { draw_index, slot_id }))
            },
        };
        let first_index = slot_id * 24576u32;
        let vertex_offset = (slot_id * 16384u32) as i32;
        let instance = ChunkInstance { key, aabb_min: mesh.aabb_min, aabb_max: mesh.aabb_max };
        let indirect = DrawIndexedIndirectCommand {
            index_count: mesh.indices.len() as u32,
            instance_count: 1,
            first_index,
            vertex_offset,
            first_instance: slot_id,
        };
        self.instance_shadow.set(slot_id as usize, Some(instance));
        self.indirect_shadow.set(slot_id as usize, indirect);
        let words = flatten_vertices(&mesh.vertices);
        let vertex_bytes = cast_words_to_bytes(words.as_slice());
        let index_bytes = cast_words_to_bytes(mesh.indices.as_slice());
        Ok(SlotUpload {
            slot_id,
            draw_slot_write,
            dense_indirect_write: DenseIndirectWrite { draw_index, command: indirect },
            vertex_offset_bytes: slot_id as u64 * 131072u64,
            index_offset_bytes: slot_id as u64 * 98304u64,
            vertex_bytes,
            index_bytes,
            instance,
            indirect,
        })
    }

    /// Frees `key`'s slot, moving the last draw into its draw index; the
    /// freed slot is handed out next. `None` when `key` is not resident.
    pub fn prepare_remove(&mut self, key: ChunkKey) -> (r: Option<u32>)
        requires
            old(self).wf(),
        ensures
            final(self).wf(),
            final(self).cap() == old(self).cap(),
            ({
                let k = key.packed();
                if old(self).slots().contains_key(k) {
                    let s = old(self).slots()[k];
                    let d = old(self).draw_of()[s as int]->0 as int;
                    let last = old(self).draws().len() - 1;
                    &&& r == Some(s)
                    &&& s < old(self).cap()
                    &&& old(self).draw_of()[s as int] is Some
                    &&& 0 <= d <= last
                    &&& final(self).slots() == old(self).slots().remove(k)
                    &&& final(self).owners() == old(self).owners().update(s as int, None)
                    &&& final(self).draws() == swap_removed(old(self).draws(), d)
                    &&& final(self).draw_of() == if d != last {
                        old(self).draw_of().update(s as int, None).update(
                            old(self).draws()[last] as int,
                            Some(d as u32),
                        )
                    } else {
                        old(self).draw_of().update(s as int, None)
                    }
                    &&& final(self).free() == old(self).free().push(s)
                    &&& final(self).templates() == old(self).templates().update(s as int, zero_command())
                    &&& final(self).instances() == old(self).instances().update(s as int, None)
                } else {
                    &&& r is None
                    &&& final(self).slots() == old(self).slots()
                    &&& final(self).owners() == old(self).owners()
                    &&& final(self).draws() == old(self).draws()
                    &&& final(self).draw_of() == old(self).draw_of()
                    &&& final(self).free() == old(self).free()
                    &&& final(self).templates() == old(self).templates()
                    &&& final(self).instances() == old(self).instances()
                }
            }),
    {
        let k = key.pack();
        let ghost pre = *self;
        let slot_id = match self.chunk_to_slot.remove(&k) {
            Some(s) => s,
            None => {
                return None;
            },
        };
        proof {
            assert(pre.slots().contains_key(k));
            assert(pre.owners()[slot_id as int] is Some);
        }
        self.slot_to_chunk.set(slot_id as usize, None);
        let draw_index = match self.slot_to_draw_index[slot_id as usize] {
            Some(d) => d,
            None => {
                return None;
            },
        };
        self.slot_to_draw_index.set(slot_id as usize, None);
        let removed_draw_index = draw_index as usize;
        let last_slot = match self.draw_index_to_slot.pop() {
            Some(s) => s,
            None => {
                return None;
            },
        };
        proof {
            assert(pre.draws()[pre.draws().len() - 1] == last_slot);
            assert(pre.draws()[draw_index as int] == slot_id);
        }
        if removed_draw_index < self.draw_index_to_slot.len() {
            self.draw_index_to_slot.set(removed_draw_index, last_slot);
            self.slot_to_draw_index.set(last_slot as usize, Some(draw_index));
        }
        self.free_slots.push(slot_id);
        self.instance_shadow.set(slot_id as usize, None);
        self.indirect_shadow.set(slot_id as usize, DrawIndexedIndirectCommand::default());
        proof {
            let c = pre.cap();
            let last = pre.draws().len() - 1;
            assert(self.draws() =~= swap_removed(pre.draws(), draw_index as int));
            assert(pre.draw_of()[last_slot as int] == Some(last as u32));
            assert(last_slot != slot_id ==> draw_index != last);
            assert(self.slots() =~= pre.slots().remove(k));
            assert forall|kk: u128| #[trigger] self.slots().contains_key(kk) implies {
                &&& self.slots()[kk] < c
                &&& self.owners()[self.slots()[kk] as int] == Some(
                    self.owners()[self.slots()[kk] as int]->0,
                )
                &&& self.owners()[self.slots()[kk] as int]->0.packed() == kk
            } by {
                assert(pre.slots().contains_key(kk));
                if pre.slots()[kk] == slot_id {
                    assert(pre.owners()[slot_id as int]->0.packed() == k);
                }
            }
            assert forall|s: int| 0 <= s < c && #[trigger] self.owners()[s] is Some implies {
                &&& self.slots().contains_key(self.owners()[s]->0.packed())
                &&& self.slots()[self.owners()[s]->0.packed()] == s
                &&& self.draw_of()[s] is Some
            } by {
                assert(pre.owners()[s] is Some);
                assert(s != slot_id);
                if self.owners()[s]->0.packed() == k {
                    assert(pre.slots()[k] == s);
                }
            }
            assert forall|s: int| 0 <= s < c && #[trigger] self.draw_of()[s] is Some implies {
                &&& self.draw_of()[s]->0 < self.draws().len()
                &&& self.draws()[self.draw_of()[s]->0 as int] == s
            } by {
                if s != last_slot {
                    assert(pre.draw_of()[s] is Some);
                    assert(s != slot_id);
                    let ds = pre.draw_of()[s]->0;
                    assert(pre.draws()[ds as int] == s);
                    assert(ds != last);
                    assert(ds != draw_index);
                }
            }
            assert forall|d: int| 0 <= d < self.draws().len() implies {
                &&& #[trigger] self.draws()[d] < c
                &&& self.draw_of()[self.draws()[d] as int] == Some(d as u32)
                &&& self.owners()[self.draws()[d] as int] is Some
            } by {
                if d != draw_index {
                    let s = pre.draws()[d];
                    assert(pre.draw_of()[s as int] == Some(d as u32));
                    assert(s != slot_id);
                    assert(s != last_slot);
                }
            }
            assert forall|i: int| 0 <= i < self.free().len() implies {
                &&& #[trigger] self.free()[i] < c
                &&& self.owners()[self.free()[i] as int] is None
                &&& self.draw_of()[self.free()[i] as int] is None
            } by {
                if i < pre.free().len() {
                    assert(pre.free()[i] == self.free()[i]);
                    assert(pre.owners()[pre.free()[i] as int] is None);
                    assert(pre.free()[i] != last_slot);
                }
            }
            assert forall|i: int, j: int| 0 <= i < j < self.free().len() implies self.free()[i] != self.free()[j] by {
                if j == pre.free().len() {
                    assert(pre.owners()[pre.free()[i] as int] is None);
                }
            }
            assert(self.templates() =~= pre.templates().update(slot_id as int, zero_command()));
            assert(self.owners() =~= pre.owners().update(slot_id as int, None));
            if draw_index as int != last {
                assert(self.draw_of() =~= pre.draw_of().update(slot_id as int, None).update(
                    last_slot as int,
                    Some(draw_index),
                ));
            } else {
                assert(self.draw_of() =~= pre.draw_of().update(slot_id as int, None));
            }
        }
        Some(slot_id)
    }

    /// Slot of `key`, when resident.
    pub fn slot_for(&self, key: ChunkKey) -> (r: Option<u32>)
        ensures
            r == (if self.slots().contains_key(key.packed()) {
                Some(self.slots()[key.packed()])
            } else {
                None
            }),
    {
        let k = key.pack();
        match self.chunk_to_slot.get(&k) {
            Some(s) => Some(*s),
            None => None,
        }
    }

    /// Instance records, one per slot.
    pub fn instance_shadow(&self) -> (s: &[Option<ChunkInstance>])
        ensures
            s@ == self.instances(),
    {
        self.instance_shadow.as_slice()
    }

    /// Indirect draw templates, one per slot.
    pub fn indirect_shadow(&self) -> (s: &[DrawIndexedIndirectCommand])
        ensures
            s@ == self.templates(),
    {
        self.indirect_shadow.as_slice()
    }

    /// Number of resident chunks.
    pub fn active_chunk_count(&self) -> (n: u32)
        requires
            self.wf(),
        ensures
            n == self.slots().len(),
            n == self.draws().len(),
    {
        self.chunk_to_slot.len() as u32
    }

    /// Number of draws in the dense draw list.
    pub fn active_draw_count(&self) -> (n: u32)
        requires
            self.wf(),
        ensures
            n == self.draws().len(),
    {
        self.draw_index_to_slot.len() as u32
    }

    /// Slot drawn at each draw index.
    pub fn draw_slots_shadow(&self) -> (s: &[u32])
        ensures
            s@ == self.draws(),
    {
        self.draw_index_to_slot.as_slice()
    }

    /// Draw index of `slot_id`, when the slot is in use.
    pub fn draw_index_for_slot(&self, slot_id: u32) -> (r: Option<u32>)
        ensures
            r == (if slot_id < self.draw_of().len() {
                self.draw_of()[slot_id as int]
            } else {
                None
            }),
    {
        if (slot_id as usize) < self.slot_to_draw_index.len() {
            self.slot_to_draw_index[slot_id as usize]
        } else {
            None
        }
    }

    /// Number of slots.
    pub fn capacity(&self) -> (n: usize)
        ensures
            n == self.cap(),
    {
        self.slot_to_chunk.len()
    }

    /// Adds slots `cap..new_capacity` as free slots, the lowest handed out
    /// first. Fails, changing nothing, unless `new_capacity` exceeds the
    /// current capacity.
    pub fn grow(&mut self, new_capacity: usize) -> (r: Result<(), ChunkPoolError>)
        requires
            old(self).wf(),
            new_capacity <= MAX_SLOT_CAPACITY,
        ensures
            final(self).wf(),
            final(self).slots() == old(self).slots(),
            final(self).draws() == old(self).draws(),
            match r {
                Ok(()) => {
                    &&& new_capacity > old(self).cap()
                    &&& final(self).cap() == new_capacity
                    &&& final(self).free() == old(self).free() + Seq::new(
                        (new_capacity - old(self).cap()) as nat,
                        |i: int| (new_capacity - 1 - i) as u32,
                    )
                    &&& final(self).templates() == old(self).templates() + Seq::new(
                        (new_capacity - old(self).cap()) as nat,
                        |i: int| zero_command(),
                    )
                    &&& final(self).instances() == old(self).instances() + Seq::new(
                        (new_capacity - old(self).cap()) as nat,
                        |i: int| None::<ChunkInstance>,
                    )
                    &&& final(self).owners() == old(self).owners() + Seq::new(
                        (new_capacity - old(self).cap()) as nat,
                        |i: int| None::<ChunkKey>,
                    )
                    &&& final(self).draw_of() == old(self).draw_of() + Seq::new(
                        (new_capacity - old(self).cap()) as nat,
                        |i: int| None::<u32>,
                    )
                },
                Err(e) => {
                    &&& new_capacity <= old(self).cap()
                    &&& final(self).owners() == old(self).owners()
                    &&& final(self).draw_of() == old(self).draw_of()
                    &&& e == ChunkPoolError::CapacityNotLarger {
                        old_capacity: old(self).cap() as usize,
                        new_capacity,
                    }
                    &&& final(self).cap() == old(self).cap()
                    &&& final(self).free() == old(self).free()
                    &&& final(self).templates() == old(self).templates()
                    &&& final(self).instances() == old(self).instances()
                },
            },
    {
        let old_capacity = self.slot_to_chunk.len();
        if new_capacity <= old_capacity {
            return Err(ChunkPoolError::CapacityNotLarger { old_capacity, new_capacity });
        }
        let ghost pre = *self;
        let mut i: usize = old_capacity;
        while i < new_capacity
            invariant
                old_capacity == pre.cap(),
                old_capacity <= i <= new_capacity <= MAX_SLOT_CAPACITY,
                pre.wf(),
                self.chunk_to_slot == pre.chunk_to_slot,
                self.free_slots == pre.free_slots,
                self.draw_index_to_slot == pre.draw_index_to_slot,
                self.slot_to_chunk@ == pre.owners() + Seq::new((i - old_capacity) as nat, |j: int| None::<ChunkKey>),
                self.slot_to_draw_index@ == pre.draw_of() + Seq::new((i - old_capacity) as nat, |j: int| None::<u32>),
                self.instance_shadow@ == pre.instances() + Seq::new((i - old_capacity) as nat, |j: int| None::<ChunkInstance>),
                self.indirect_shadow@ == pre.templates() + Seq::new((i - old_capacity) as nat, |j: int| zero_command()),
            decreases new_capacity - i,
        {
            self.slot_to_chunk.push(None);
            self.slot_to_draw_index.push(None);
            self.instance_shadow.push(None);
            self.indirect_shadow.push(DrawIndexedIndirectCommand::default());
            proof {
                let n = (i + 1 - old_capacity) as nat;
                assert(self.slot_to_chunk@ =~= pre.owners() + Seq::new(n, |j: int| None::<ChunkKey>));
                assert(self.slot_to_draw_index@ =~= pre.draw_of() + Seq::new(n, |j: int| None::<u32>));
                assert(self.instance_shadow@ =~= pre.instances() + Seq::new(n, |j: int| None::<ChunkInstance>));
                assert(self.indirect_shadow@ =~= pre.templates() + Seq::new(n, |j: int| zero_command()));
            }
            i += 1;
        }
        let mut slot: usize = new_capacity;
        while slot > old_capacity
            invariant
                old_capacity == pre.cap(),
                old_capacity <= slot <= new_capacity <= MAX_SLOT_CAPACITY,
                self.free_slots@ == pre.free() + Seq::new((new_capacity - slot) as nat, |j: int| (new_capacity - 1 - j) as u32),
                self.chunk_to_slot == pre.chunk_to_slot,
                self.draw_index_to_slot == pre.draw_index_to_slot,
                self.slot_to_chunk@ == pre.owners() + Seq::new((new_capacity - old_capacity) as nat, |j: int| None::<ChunkKey>),
                self.slot_to_draw_index@ == pre.draw_of() + Seq::new((new_capacity - old_capacity) as nat, |j: int| None::<u32>),
                self.instance_shadow@ == pre.instances() + Seq::new((new_capacity - old_capacity) as nat, |j: int| None::<ChunkInstance>),
                self.indirect_shadow@ == pre.templates() + Seq::new((new_capacity - old_capacity) as nat, |j: int| zero_command()),
            decreases slot,
        {
            slot -= 1;
            self.free_slots.push(slot as u32);
            proof {
                assert(self.free_slots@ =~= pre.free() + Seq::new((new_capacity - slot) as nat, |j: int| (new_capacity - 1 - j) as u32));
            }
        }
        proof {
            let c = new_capacity as nat;
            let oc = old_capacity as int;
            assert(self.cap() == c);
            assert forall|k: u128| #[trigger] self.slots().contains_key(k) implies {
                &&& self.slots()[k] < c
                &&& self.owners()[self.slots()[k] as int] == Some(
                    self.owners()[self.slots()[k] as int]->0,
                )
                &&& self.owners()[self.slots()[k] as int]->0.packed() == k
            } by {
                assert(pre.slots().contains_key(k));
                assert(self.owners()[pre.slots()[k] as int] == pre.owners()[pre.slots()[k] as int]);
            }
            assert forall|s: int| 0 <= s < c && #[trigger] self.owners()[s] is Some implies {
                &&& self.slots().contains_key(self.owners()[s]->0.packed())
                &&& self.slots()[self.owners()[s]->0.packed()] == s
                &&& self.draw_of()[s] is Some
            } by {
                assert(s < oc);
                assert(pre.owners()[s] == self.owners()[s]);
            }
            assert forall|s: int| 0 <= s < c && #[trigger] self.draw_of()[s] is Some implies {
                &&& self.draw_of()[s]->0 < self.draws().len()
                &&& self.draws()[self.draw_of()[s]->0 as int] == s
            } by {
                assert(s < oc);
                assert(pre.draw_of()[s] == self.draw_of()[s]);
            }
            assert forall|d: int| 0 <= d < self.draws().len() implies {
                &&& #[trigger] self.draws()[d] < c
                &&& self.draw_of()[self.draws()[d] as int] == Some(d as u32)
                &&& self.owners()[self.draws()[d] as int] is Some
            } by {
                let s = pre.draws()[d];
                assert(s < oc);
                assert(self.draw_of()[s as int] == pre.draw_of()[s as int]);
                assert(self.owners()[s as int] == pre.owners()[s as int]);
            }
            assert forall|i: int| 0 <= i < self.free().len() implies {
                &&& #[trigger] self.free()[i] < c
                &&& self.owners()[self.free()[i] as int] is None
                &&& self.draw_of()[self.free()[i] as int] is None
            } by {
                if i < pre.free().len() {
                    assert(pre.free()[i] == self.free()[i]);
                    assert(self.owners()[pre.free()[i] as int] == pre.owners()[pre.free()[i] as int]);
                    assert(self.draw_of()[pre.free()[i] as int] == pre.draw_of()[pre.free()[i] as int]);
                } else {
                    assert(self.free()[i] >= oc);
                }
            }
            assert forall|i: int, j: int| 0 <= i < j < self.free().len() implies self.free()[i] != self.free()[j] by {
                if i < pre.free().len() && j < pre.free().len() {
                } else if i < pre.free().len() {
                    assert(self.free()[i] < oc);
                    assert(self.free()[j] >= oc);
                }
            }
        }
        Ok(())
    }
}

/// The chunk pool's slot bookkeeping and its dense indirect shadow.
pub struct ChunkPool {
    capacity: usize,
    dense_indirect_shadow: Vec<DrawIndexedIndirectCommand>,
    slot_allocator: SlotAllocator,
}

/// Commands that keep the dense draw list valid after `slot` at draw index
/// `d` is removed: the last draw moves into `d` (when `d` is not last) and
/// the last draw index is cleared.
pub open spec fn removal_slot_writes(draws: Seq<u32>, d: int) -> Seq<DrawSlotWrite> {
    let last = draws.len() - 1;
    if d != last {
        seq![
            DrawSlotWrite { draw_index: d as u32, slot_id: draws[last] },
            DrawSlotWrite { draw_index: last as u32, slot_id: 0 },
        ]
    } else {
        seq![DrawSlotWrite { draw_index: last as u32, slot_id: 0 }]
    }
}

/// The dense indirect commands matching `removal_slot_writes`.
pub open spec fn removal_indirect_writes(
    draws: Seq<u32>,
    templates: Seq<DrawIndexedIndirectCommand>,
    d: int,
) -> Seq<DenseIndirectWrite> {
    let last = draws.len() - 1;
    if d != last {
        seq![
            DenseIndirectWrite { draw_index: d as u32, command: templates[draws[last] as int] },
            DenseIndirectWrite { draw_index: last as u32, command: zero_command() },
        ]
    } else {
        seq![DenseIndirectWrite { draw_index: last as u32, command: zero_command() }]
    }
}

/// One copy of `size` bytes from `src_offset` in an old buffer to
/// `dst_offset` in its grown replacement.
#[derive(Clone, Copy, Debug, PartialEq, Eq)]
pub struct BufferCopy {
    pub src_offset: u64,
    pub dst_offset: u64,
    pub size: u64,
}

/// What growing the chunk pool copies: the old vertex and index slots,
/// and each scene-buffer region from its old offset to its new one.
#[derive(Clone, Copy, Debug, PartialEq, Eq)]
pub struct ChunkGrowCopies {
    pub new_capacity: usize,
    pub vertices: BufferCopy,
    pub indices: BufferCopy,
    pub instances: BufferCopy,
    pub indirect_templates: BufferCopy,
    pub draw_slots: BufferCopy,
    pub dense_indirect: BufferCopy,
}

pub open spec fn copy_of(src_offset: int, dst_offset: int, size: int) -> BufferCopy {
    BufferCopy { src_offset: src_offset as u64, dst_offset: dst_offset as u64, size: size as u64 }
}

/// The copies for growing from `old` to `2 * old` slots: whole vertex and
/// index slots, and the old capacity's worth of each scene region (64-byte
/// instances, 20-byte templates, 4-byte draw slots, 20-byte dense
/// commands), moved from `scene_regions(old)` to `scene_regions(2 * old)`.
pub open spec fn grow_copies(old: int) -> ChunkGrowCopies {
    let o = scene_regions(old);
    let n = scene_regions(2 * old);
    ChunkGrowCopies {
        new_capacity: (2 * old) as usize,
        vertices: copy_of(0, 0, 131072 * old),
        indices: copy_of(0, 0, 98304 * old),
        instances: copy_of(o.0, n.0, 64 * old),
        indirect_templates: copy_of(o.1, n.1, 20 * old),
        draw_slots: copy_of(o.2, n.2, 4 * old),
        dense_indirect: copy_of(o.3, n.3, 20 * old),
    }
}

/// Computes `grow_copies(old_capacity)`.
pub fn chunk_grow_copies(old_capacity: usize) -> (c: ChunkGrowCopies)
    requires
        2 * old_capacity <= MAX_SLOT_CAPACITY,
    ensures
        c == grow_copies(old_capacity as int),
{
    let (oi, ot, os, od, _) = scene_buffer_region_offsets(old_capacity);
    let new_capacity = 2 * old_capacity;
    let (ni, nt, ns, nd, _) = scene_buffer_region_offsets(new_capacity);
    let cap = old_capacity as u64;
    ChunkGrowCopies {
        new_capacity,
        vertices: BufferCopy { src_offset: 0, dst_offset: 0, size: cap * 131072 },
        indices: BufferCopy { src_offset: 0, dst_offset: 0, size: cap * 98304 },
        instances: BufferCopy { src_offset: oi, dst_offset: ni, size: cap * 64 },
        indirect_templates: BufferCopy { src_offset: ot, dst_offset: nt, size: cap * 20 },
        draw_slots: BufferCopy { src_offset: os, dst_offset: ns, size: cap * 4 },
        dense_indirect: BufferCopy { src_offset: od, dst_offset: nd, size: cap * 20 },
    }
}

/// What preparing the upload of a mesh (its vertices, indices and box) for
/// `key` does to allocator `a0`, leaving `a1`: a resident chunk keeps its
/// slot and draw index; a new chunk takes the last free slot and the next
/// draw index; with no free slot the upload fails with `Exhausted` and
/// nothing changes. The upload carries the mesh's bytes, the slot's
/// offsets, instance and draw command.
pub open spec fn upload_outcome(
    a0: SlotAllocator,
    a1: SlotAllocator,
    key: ChunkKey,
    vertices: Seq<PackedVertex>,
    indices: Seq<u32>,
    aabb_min: [i32; 3],
    aabb_max: [i32; 3],
    r: Result<SlotUpload, ChunkPoolError>,
) -> bool {
    let k = key.packed();
    match r {
        Ok(up) => {
            let s = up.slot_id;
            &&& a0.slots().contains_key(k) ==> {
                &&& s == a0.slots()[k]
                &&& a1.slots() == a0.slots()
                &&& a1.draws() == a0.draws()
                &&& a1.free() == a0.free()
                &&& up.draw_slot_write is None
                &&& a0.draw_of()[s as int] == Some(up.dense_indirect_write.draw_index)
            }
            &&& !a0.slots().contains_key(k) ==> {
                &&& a0.free().len() > 0
                &&& s == a0.free().last()
                &&& a1.slots() == a0.slots().insert(k, s)
                &&& a1.draws() == a0.draws().push(s)
                &&& a1.free() == a0.free().drop_last()
                &&& up.draw_slot_write == Some(DrawSlotWrite { draw_index: a0.draws().len() as u32, slot_id: s })
                &&& up.dense_indirect_write.draw_index == a0.draws().len()
            }
            &&& up.indirect == slot_command(s, indices.len())
            &&& up.dense_indirect_write.command == up.indirect
            &&& up.vertex_offset_bytes == s * 131072
            &&& up.index_offset_bytes == s * 98304
            &&& up.instance == (ChunkInstance { key, aabb_min, aabb_max })
            &&& bytes_of_words(vertex_words(vertices), up.vertex_bytes@)
            &&& bytes_of_words(indices, up.index_bytes@)
            &&& a1.templates() == a0.templates().update(s as int, up.indirect)
            &&& a1.instances() == a0.instances().update(s as int, Some(up.instance))
        },
        Err(e) => {
            &&& !a0.slots().contains_key(k)
            &&& a0.free().len() == 0
            &&& e == ChunkPoolError::Exhausted { capacity: a0.cap() as usize }
            &&& a1.slots() == a0.slots()
            &&& a1.draws() == a0.draws()
            &&& a1.free() == a0.free()
            &&& a1.templates() == a0.templates()
            &&& a1.instances() == a0.instances()
        },
    }
}

/// What removing `key` does to allocator `a0`, leaving `a1`: a resident
/// chunk's slot is freed and the last draw moves into its draw index, with
/// the writes that say so; otherwise nothing changes and there is no
/// removal.
pub open spec fn remove_outcome(a0: SlotAllocator, a1: SlotAllocator, key: ChunkKey, r: Option<SlotRemove>) -> bool {
    let k = key.packed();
    if a0.slots().contains_key(k) {
        let s = a0.slots()[k];
        let d = a0.draw_of()[s as int]->0 as int;
        &&& r matches Some(rm)
        &&& rm.slot_id == s
        &&& rm.draw_slot_writes@ == removal_slot_writes(a0.draws(), d)
        &&& rm.dense_indirect_writes@ == removal_indirect_writes(a0.draws(), a0.templates(), d)
        &&& s < a0.cap()
        &&& a1.slots() == a0.slots().remove(k)
        &&& a1.owners() == a0.owners().update(s as int, None)
        &&& a1.draws() == swap_removed(a0.draws(), d)
        &&& a1.draw_of() == if d != a0.draws().len() - 1 {
            a0.draw_of().update(s as int, None).update(a0.draws()[a0.draws().len() - 1] as int, Some(d as u32))
        } else {
            a0.draw_of().update(s as int, None)
        }
        &&& a1.free() == a0.free().push(s)
        &&& a1.templates() == a0.templates().update(s as int, zero_command())
        &&& a1.instances() == a0.instances().update(s as int, None)
    } else {
        &&& r is None
        &&& a1.slots() == a0.slots()
        &&& a1.owners() == a0.owners()
        &&& a1.draw_of() == a0.draw_of()
        &&& a1.draws() == a0.draws()
        &&& a1.free() == a0.free()
        &&& a1.templates() == a0.templates()
        &&& a1.instances() == a0.instances()
    }
}

impl ChunkPool {
    /// The slot allocator.
    pub closed spec fn allocator(self) -> SlotAllocator {
        self.slot_allocator
    }

    /// Dense indirect commands as last written, one per draw index.
    pub closed spec fn dense(self) -> Seq<DrawIndexedIndirectCommand> {
        self.dense_indirect_shadow@
    }

    /// The allocator is well formed with at least `INITIAL_CAPACITY` slots,
    /// and the dense shadow has one command per slot.
    pub closed spec fn wf(self) -> bool {
        &&& self.slot_allocator.wf()
        &&& self.capacity == self.slot_allocator.cap()
        &&& self.capacity >= INITIAL_CAPACITY
        &&& self.dense_indirect_shadow@.len() == self.capacity
    }

    /// A pool of `INITIAL_CAPACITY` free slots.
    pub fn new() -> (p: ChunkPool)
        ensures
            p.wf(),
            p.allocator().cap() == INITIAL_CAPACITY,
            p.allocator().slots() == Map::<u128, u32>::empty(),
            p.allocator().draws() == Seq::<u32>::empty(),
            p.dense() == Seq::new(INITIAL_CAPACITY as nat, |i: int| zero_command()),
    {
        let capacity = INITIAL_CAPACITY;
        let mut dense_indirect_shadow: Vec<DrawIndexedIndirectCommand> = Vec::new();
        let mut i: usize = 0;
        while i < capacity
            invariant
                i <= capacity == INITIAL_CAPACITY,
                dense_indirect_shadow@ == Seq::new(i as nat, |j: int| zero_command()),
            decreases capacity - i,
        {
            dense_indirect_shadow.push(DrawIndexedIndirectCommand::default());
            assert(dense_indirect_shadow@ =~= Seq::new((i + 1) as nat, |j: int| zero_command()));
            i += 1;
        }
        ChunkPool { capacity, dense_indirect_shadow, slot_allocator: SlotAllocator::with_capacity(capacity) }
    }

    /// Assigns `key` a slot and describes the upload of `mesh`
    /// (see `SlotAllocator::prepare_upload`).
    pub fn prepare_upload(&mut self, key: ChunkKey, mesh: &PackedMesh) -> (r: Result<SlotUpload, ChunkPoolError>)
        requires
            old(self).wf(),
            2 * mesh.vertices@.len() <= usize::MAX,
        ensures
            final(self).wf(),
            final(self).dense() == old(self).dense(),
            upload_outcome(
                old(self).allocator(),
                final(self).allocator(),
                key,
                mesh.vertices@,
                mesh.indices@,
                mesh.aabb_min,
                mesh.aabb_max,
                r,
            ),
    {
        self.slot_allocator.prepare_upload(key, mesh)
    }

    /// Frees `key`'s slot and lists the draw-slot and dense-indirect writes
    /// that keep the dense draw list valid. `None` when `key` is not resident.
    pub fn prepare_remove(&mut self, key: ChunkKey) -> (r: Option<SlotRemove>)
        requires
            old(self).wf(),
        ensures
            final(self).wf(),
            final(self).dense() == old(self).dense(),
            remove_outcome(old(self).allocator(), final(self).allocator(), key, r),
    {
        let slot_id = match self.slot_allocator.slot_for(key) {
            Some(s) => s,
            None => {
                return None;
            },
        };
        let ghost a = self.slot_allocator;
        proof {
            assert(a.owners()[slot_id as int] is Some);
        }
        let draw_index = match self.slot_allocator.draw_index_for_slot(slot_id) {
            Some(d) => d,
            None => {
                return None;
            },
        };
        let active = self.slot_allocator.active_draw_count();
        let last_draw_index = match active.checked_sub(1) {
            Some(l) => l,
            None => {
                return None;
            },
        };
        let moved_slot = if draw_index != last_draw_index {
            let shadow = self.slot_allocator.draw_slots_shadow();
            if (last_draw_index as usize) < shadow.len() {
                Some(shadow[last_draw_index as usize])
            } else {
                None
            }
        } else {
            None
        };
        let removed = self.slot_allocator.prepare_remove(key);
        if removed.is_none() {
            return None;
        }
        let mut draw_slot_writes: Vec<DrawSlotWrite> = Vec::new();
        let mut dense_indirect_writes: Vec<DenseIndirectWrite> = Vec::new();
        if let Some(moved) = moved_slot {
            proof {
                assert(a.draws()[last_draw_index as int] < a.cap());
                assert(moved != slot_id);
            }
            draw_slot_writes.push(DrawSlotWrite { draw_index, slot_id: moved });
            let command = self.slot_allocator.indirect_shadow()[moved as usize];
            dense_indirect_writes.push(DenseIndirectWrite { draw_index, command });
        }
        draw_slot_writes.push(DrawSlotWrite { draw_index: last_draw_index, slot_id: 0 });
        dense_indirect_writes.push(DenseIndirectWrite { draw_index: last_draw_index, command: DrawIndexedIndirectCommand::default() });
        proof {
            let d = draw_index as int;
            assert(draw_slot_writes@ =~= removal_slot_writes(a.draws(), d));
            assert(dense_indirect_writes@ =~= removal_indirect_writes(a.draws(), a.templates(), d));
        }
        Some(SlotRemove { slot_id, draw_slot_writes, dense_indirect_writes })
    }

    /// Records the dense indirect command written at a draw index.
    pub fn record_dense_indirect_write(&mut self, write: DenseIndirectWrite)
        requires
            old(self).wf(),
            write.draw_index < old(self).allocator().cap(),
        ensures
            final(self).wf(),
            final(self).allocator() == old(self).allocator(),
            final(self).dense() == old(self).dense().update(write.draw_index as int, write.command),
    {
        self.dense_indirect_shadow.set(write.draw_index as usize, write.command);
    }

    /// Number of resident chunks.
    pub fn active_chunk_count(&self) -> (n: u32)
        requires
            self.wf(),
        ensures
            n == self.allocator().slots().len(),
    {
        self.slot_allocator.active_chunk_count()
    }

    /// Number of draws in the dense draw list.
    pub fn active_draw_count(&self) -> (n: u32)
        requires
            self.wf(),
        ensures
            n == self.allocator().draws().len(),
    {
        self.slot_allocator.active_draw_count()
    }

    /// Number of slots described by the scene buffer.
    pub fn scene_buffer_capacity(&self) -> (n: usize)
        requires
            self.wf(),
        ensures
            n == self.allocator().cap(),
    {
        self.capacity
    }

    /// Byte offset of the dense indirect region within the scene buffer.
    pub fn dense_indirect_region_offset(&self) -> (off: u64)
        requires
            self.wf(),
        ensures
            off == scene_regions(self.allocator().cap() as int).3,
    {
        proof {
            use_allocator_bound(self.slot_allocator);
        }
        let (_, _, _, dense_off, _) = scene_buffer_region_offsets(self.capacity);
        dense_off
    }

    /// The slot allocator.
    pub fn slot_allocator(&self) -> (a: &SlotAllocator)
        ensures
            *a == self.allocator(),
    {
        &self.slot_allocator
    }

    /// Number of slots.
    pub fn capacity(&self) -> (n: usize)
        requires
            self.wf(),
        ensures
            n == self.allocator().cap(),
    {
        self.capacity
    }

    /// Whether more than 90% of the slots hold chunks.
    pub fn needs_grow(&self) -> (b: bool)
        requires
            self.wf(),
        ensures
            b == (10 * self.allocator().slots().len() > 9 * self.allocator().cap()),
    {
        let active = self.slot_allocator.active_chunk_count() as u64;
        let cap = self.capacity as u64;
        proof {
            use_allocator_bound(self.slot_allocator);
        }
        10 * active > 9 * cap
    }

    /// Doubles the slot count: the new slots are free with no draw index,
    /// the dense shadow is extended with empty commands, and every resident
    /// slot keeps its chunk and draw index. Returns the copies that carry the
    /// old GPU buffers into the grown ones.
    pub fn grow_capacity(&mut self) -> (copies: ChunkGrowCopies)
        requires
            old(self).wf(),
            2 * old(self).allocator().cap() <= MAX_SLOT_CAPACITY,
        ensures
            final(self).wf(),
            copies == grow_copies(old(self).allocator().cap() as int),
            final(self).allocator().cap() == 2 * old(self).allocator().cap(),
            final(self).allocator().slots() == old(self).allocator().slots(),
            final(self).allocator().draws() == old(self).allocator().draws(),
            final(self).allocator().free() == old(self).allocator().free() + Seq::new(
                old(self).allocator().cap(),
                |i: int| (2 * old(self).allocator().cap() - 1 - i) as u32,
            ),
            final(self).allocator().owners() == old(self).allocator().owners() + Seq::new(
                old(self).allocator().cap(),
                |i: int| None::<ChunkKey>,
            ),
            final(self).allocator().draw_of() == old(self).allocator().draw_of() + Seq::new(
                old(self).allocator().cap(),
                |i: int| None::<u32>,
            ),
            final(self).allocator().templates() == old(self).allocator().templates() + Seq::new(
                old(self).allocator().cap(),
                |i: int| zero_command(),
            ),
            final(self).allocator().instances() == old(self).allocator().instances() + Seq::new(
                old(self).allocator().cap(),
                |i: int| None::<ChunkInstance>,
            ),
            final(self).dense() == old(self).dense() + Seq::new(old(self).allocator().cap(), |i: int| zero_command()),
    {
        let old_capacity = self.capacity;
        let new_capacity = old_capacity * 2;
        let ghost pre = self.dense();
        let mut i: usize = old_capacity;
        while i < new_capacity
            invariant
                old_capacity <= i <= new_capacity,
                old_capacity == old(self).capacity,
                self.slot_allocator == old(self).slot_allocator,
                self.capacity == old(self).capacity,
                old(self).wf(),
                2 * old(self).allocator().cap() <= MAX_SLOT_CAPACITY,
                self.dense_indirect_shadow@ == pre + Seq::new((i - old_capacity) as nat, |j: int| zero_command()),
            decreases new_capacity - i,
        {
            self.dense_indirect_shadow.push(DrawIndexedIndirectCommand::default());
            assert(self.dense_indirect_shadow@ =~= pre + Seq::new((i + 1 - old_capacity) as nat, |j: int| zero_command()));
            i += 1;
        }
        self.capacity = new_capacity;
        let grown = self.slot_allocator.grow(new_capacity);
        proof {
            assert(grown is Ok);
        }
        chunk_grow_copies(old_capacity)
    }
}

/// A change to the set of resident chunk meshes, queued for upload.
#[derive(Debug)]
pub enum RenderDelta {
    /// Upload (or replace) a chunk's mesh.
    Upsert { key: ChunkKey, mesh: MeshletMesh },
    /// Drop a chunk.
    Remove { key: ChunkKey },
}

/// The writes a queued delta turns into.
pub enum PreparedDelta {
    /// The chunk's slot upload.
    Upload(SlotUpload),
    /// The chunk's slot removal.
    Remove(SlotRemove),
    /// A removal of a chunk that is not resident: nothing to write.
    NotResident,
}

/// A delta the pool can prepare: an upsert's meshlets lie inside their
/// buffers and its vertex words fit in `usize`.
pub open spec fn delta_fits(delta: RenderDelta) -> bool {
    delta matches RenderDelta::Upsert { mesh, .. } ==> mesh.in_bounds() && 2 * mesh.vertices@.len() <= usize::MAX
}

/// Whether `delta` meets what `prepare_pending` asks of each queued delta:
/// exactly `delta_fits`.
pub fn check_delta_fits(delta: &RenderDelta) -> (b: bool)
    ensures
        b == delta_fits(*delta),
{
    match delta {
        RenderDelta::Upsert { mesh, .. } => mesh.check_in_bounds() && mesh.vertices.len() <= usize::MAX / 2,
        _ => true,
    }
}

/// What preparing `delta` does to allocator `a0`, leaving `a1`, with
/// result `r`: an upsert uploads the mesh's flattened form (vertices, flat
/// indices, box) as `upload_outcome` says; a removal frees the chunk's slot
/// as `remove_outcome` says and never fails.
pub open spec fn delta_outcome(
    a0: SlotAllocator,
    a1: SlotAllocator,
    delta: RenderDelta,
    r: Result<PreparedDelta, ChunkPoolError>,
) -> bool {
    match delta {
        RenderDelta::Upsert { key, mesh } => {
            let outcome = match r {
                Ok(PreparedDelta::Upload(up)) => Some(Ok(up)),
                Err(e) => Some(Err(e)),
                _ => None,
            };
            &&& outcome is Some
            &&& upload_outcome(
                a0,
                a1,
                key,
                mesh.vertices@,
                flat_indices_of(mesh.meshlets@, mesh.triangles@),
                mesh.aabb_min,
                mesh.aabb_max,
                outcome->0,
            )
        },
        RenderDelta::Remove { key } => {
            let outcome = match r {
                Ok(PreparedDelta::Remove(rm)) => Some(Some(rm)),
                Ok(PreparedDelta::NotResident) => Some(None),
                _ => None,
            };
            &&& outcome is Some
            &&& remove_outcome(a0, a1, key, outcome->0)
        },
    }
}

impl ChunkPool {
    /// Turns a queued delta into slot writes: an upsert uploads the mesh's
    /// flattened form (its vertices, flat indices and box) and a removal
    /// frees the chunk's slot. A failed upload leaves the pool unchanged,
    /// so the delta can be retried after the pool grows.
    pub fn prepare_delta(&mut self, delta: &RenderDelta) -> (r: Result<PreparedDelta, ChunkPoolError>)
        requires
            old(self).wf(),
            delta_fits(*delta),
        ensures
            final(self).wf(),
            final(self).dense() == old(self).dense(),
            delta_outcome(old(self).allocator(), final(self).allocator(), *delta, r),
    {
        match delta {
            RenderDelta::Upsert { key, mesh } => {
                let packed = mesh.to_packed_mesh();
                match self.prepare_upload(*key, &packed) {
                    Ok(up) => Ok(PreparedDelta::Upload(up)),
                    Err(e) => Err(e),
                }
            },
            RenderDelta::Remove { key } => match self.prepare_remove(*key) {
                Some(rm) => Ok(PreparedDelta::Remove(rm)),
                None => Ok(PreparedDelta::NotResident),
            },
        }
    }

    /// Prepares queued deltas front to back. A delta the pool cannot take
    /// (an upload with no free slot) goes back to the front of the queue
    /// and stops the run, to be retried next frame. Returns each prepared
    /// delta with its writes, in queue order.
    pub fn prepare_pending(&mut self, pending: &mut VecDeque<RenderDelta>) -> (done: Vec<(RenderDelta, PreparedDelta)>)
        requires
            old(self).wf(),
            forall|i: int| 0 <= i < old(pending)@.len() ==> delta_fits(#[trigger] old(pending)@[i]),
        ensures
            final(self).wf(),
            final(self).dense() == old(self).dense(),
            done@.len() <= old(pending)@.len(),
            final(pending)@ == old(pending)@.skip(done@.len() as int),
            forall|i: int| 0 <= i < done@.len() ==> (#[trigger] done@[i]).0 == old(pending)@[i],
            exists|states: Seq<SlotAllocator>|
                {
                    &&& states.len() == done@.len() + 1
                    &&& states[0] == old(self).allocator()
                    &&& forall|i: int|
                        0 <= i < done@.len() ==> delta_outcome(
                            states[i],
                            states[i + 1],
                            old(pending)@[i],
                            Ok(#[trigger] done@[i].1),
                        )
                    &&& done@.len() == old(pending)@.len() ==> final(self).allocator() == states.last()
                    &&& done@.len() < old(pending)@.len() ==> exists|e: ChunkPoolError|
                        delta_outcome(states.last(), final(self).allocator(), old(pending)@[done@.len() as int], Err(e))
                },
    {
        let ghost orig = pending@;
        let ghost dense0 = self.dense();
        let ghost mut states: Seq<SlotAllocator> = seq![self.allocator()];
        let mut done: Vec<(RenderDelta, PreparedDelta)> = Vec::new();
        let mut stopped = false;
        while !stopped && pending.len() > 0
            invariant
                self.wf(),
                self.dense() == dense0,
                forall|i: int| 0 <= i < orig.len() ==> delta_fits(#[trigger] orig[i]),
                done@.len() <= orig.len(),
                pending@ == orig.skip(done@.len() as int),
                states.len() == done@.len() + 1,
                states[0] == old(self).allocator(),
                forall|i: int| 0 <= i < done@.len() ==> (#[trigger] done@[i]).0 == orig[i],
                forall|i: int|
                    0 <= i < done@.len() ==> delta_outcome(states[i], states[i + 1], orig[i], Ok(#[trigger] done@[i].1)),
                !stopped ==> self.allocator() == states.last(),
                stopped ==> done@.len() < orig.len() && exists|e: ChunkPoolError|
                    delta_outcome(states.last(), self.allocator(), orig[done@.len() as int], Err(e)),
            decreases orig.len() - done@.len() + (if stopped { 0int } else { 1int }),
        {
            let delta = pending.pop_front().unwrap();
            proof {
                assert(delta == orig[done@.len() as int]);
            }
            match self.prepare_delta(&delta) {
                Ok(p) => {
                    proof {
                        states = states.push(self.allocator());
                    }
                    done.push((delta, p));
                    proof {
                        assert(pending@ =~= orig.skip(done@.len() as int));
                    }
                },
                Err(e) => {
                    pending.push_front(delta);
                    stopped = true;
                    proof {
                        assert(pending@ =~= orig.skip(done@.len() as int));
                    }
                },
            }
        }
        proof {
            if !stopped {
                assert(done@.len() == orig.len());
            }
        }
        done
    }
}

/// In a well-formed allocator the resident chunks and the draw list have
/// the same size, which is at most the slot count, itself at most
/// `MAX_SLOT_CAPACITY`.
pub proof fn use_allocator_bound(a: SlotAllocator)
    requires
        a.wf(),
    ensures
        a.cap() <= MAX_SLOT_CAPACITY,
        a.slots().len() == a.draws().len(),
        a.draws().len() + a.free().len() == a.cap(),
        a.draw_of().len() == a.cap(),
        a.templates().len() == a.cap(),
        a.instances().len() == a.cap(),
{
}

/// A well-formed pool's allocator is well formed and has at least
/// `INITIAL_CAPACITY` slots, with one dense command per slot.
pub proof fn use_pool_bound(p: ChunkPool)
    requires
        p.wf(),
    ensures
        p.allocator().wf(),
        p.allocator().cap() >= INITIAL_CAPACITY,
        p.dense().len() == p.allocator().cap(),
{
}

/// The dense draw list lists each resident chunk's slot exactly once: a
/// resident chunk's slot lies below the slot count and is drawn at its
/// draw index, no slot is drawn
/// twice, and every drawn slot belongs to a resident chunk.
pub proof fn law_draw_list_is_dense(a: SlotAllocator)
    requires
        a.wf(),
    ensures
        a.draws().len() == a.slots().len(),
        forall|k: u128|
            #[trigger] a.slots().contains_key(k) ==> {
                &&& a.slots()[k] < a.cap()
                &&& a.draw_of()[a.slots()[k] as int] is Some
                &&& a.draw_of()[a.slots()[k] as int]->0 < a.draws().len()
                &&& a.draws()[a.draw_of()[a.slots()[k] as int]->0 as int] == a.slots()[k]
            },
        forall|i: int, j: int| 0 <= i < j < a.draws().len() ==> a.draws()[i] != a.draws()[j],
        forall|d: int|
            0 <= d < a.draws().len() ==> {
                &&& a.owners()[#[trigger] a.draws()[d] as int] is Some
                &&& a.slots().contains_key(a.owners()[a.draws()[d] as int]->0.packed())
                &&& a.slots()[a.owners()[a.draws()[d] as int]->0.packed()] == a.draws()[d]
            },
{
    assert forall|i: int, j: int| 0 <= i < j < a.draws().len() implies a.draws()[i] != a.draws()[j] by {
        assert(a.draw_of()[a.draws()[i] as int] == Some(i as u32));
        assert(a.draw_of()[a.draws()[j] as int] == Some(j as u32));
    }
    assert forall|k: u128| #[trigger] a.slots().contains_key(k) implies {
        &&& a.slots()[k] < a.cap()
        &&& a.draw_of()[a.slots()[k] as int] is Some
        &&& a.draw_of()[a.slots()[k] as int]->0 < a.draws().len()
        &&& a.draws()[a.draw_of()[a.slots()[k] as int]->0 as int] == a.slots()[k]
    } by {
        let s = a.slots()[k] as int;
        assert(a.owners()[s] is Some);
    }
    assert forall|d: int| 0 <= d < a.draws().len() implies {
        &&& a.owners()[#[trigger] a.draws()[d] as int] is Some
        &&& a.slots().contains_key(a.owners()[a.draws()[d] as int]->0.packed())
        &&& a.slots()[a.owners()[a.draws()[d] as int]->0.packed()] == a.draws()[d]
    } by {
        let s = a.draws()[d] as int;
        assert(a.owners()[s] is Some);
    }
}

/// Removing a chunk right after uploading it as a new chunk restores the
/// resident chunks, the draw list and the free list.
pub proof fn law_remove_undoes_new_upload(a0: SlotAllocator, a1: SlotAllocator, k: u128, s: u32)
    requires
        a0.wf(),
        a1.wf(),
        !a0.slots().contains_key(k),
        a0.free().len() > 0,
        s == a0.free().last(),
        a1.slots() == a0.slots().insert(k, s),
        a1.draws() == a0.draws().push(s),
        a1.free() == a0.free().drop_last(),
    ensures
        a1.slots().contains_key(k),
        a1.slots()[k] == s,
        a1.slots().remove(k) == a0.slots(),
        swap_removed(a1.draws(), a1.draw_of()[s as int]->0 as int) == a0.draws(),
        a1.free().push(s) == a0.free(),
{
    let d = a0.draws().len() as int;
    assert(a1.draws()[d] == s);
    assert(a1.draw_of()[s as int] == Some(d as u32));
    assert(a1.slots().remove(k) =~= a0.slots());
    assert(swap_removed(a1.draws(), d) =~= a0.draws());
    assert(a1.free().push(s) =~= a0.free());
}

} // verus!
