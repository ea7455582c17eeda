//! Chunk addressing and dense voxel storage.

use vstd::prelude::*;
use vstd::arithmetic::div_mod::lemma_fundamental_div_mod_converse;

verus! {

/// Number of voxels along each edge of a chunk.
pub const CHUNK_EDGE: usize = 64;

/// Number of voxels stored in one chunk (`CHUNK_EDGE³`).
pub const CHUNK_VOLUME: usize = 262144;

/// Grid coordinates of a chunk at one level of detail.
#[derive(Clone, Copy, Debug, PartialEq, Eq, Hash)]
pub struct ChunkKey {
    pub x: i32,
    pub y: i32,
    pub z: i32,
    pub lod_level: u8,
}

/// Offset that moves an `i32` into `[0, 2^32)`.
pub open spec fn biased(v: i32) -> int {
    v as int + 0x8000_0000
}

impl ChunkKey {
    pub fn new(x: i32, y: i32, z: i32, lod_level: u8) -> (key: ChunkKey)
        ensures
            key == (ChunkKey { x, y, z, lod_level }),
    {
        ChunkKey { x, y, z, lod_level }
    }

    /// Injective encoding of a key as one integer, used to key hash maps.
    pub open spec fn packed(self) -> u128 {
        (biased(self.x) + biased(self.y) * 0x1_0000_0000 + biased(self.z)
            * 0x1_0000_0000_0000_0000 + self.lod_level as int * 0x1_0000_0000_0000_0000_0000_0000) as u128
    }

    /// Computes `self.packed()`.
    pub fn pack(&self) -> (p: u128)
        ensures
            p == self.packed(),
    {
        let xo = (self.x as i64 + 0x8000_0000i64) as u128;
        let yo = (self.y as i64 + 0x8000_0000i64) as u128;
        let zo = (self.z as i64 + 0x8000_0000i64) as u128;
        let lo = self.lod_level as u128;
        xo + yo * 0x1_0000_0000u128 + zo * 0x1_0000_0000_0000_0000u128 + lo
            * 0x1_0000_0000_0000_0000_0000_0000u128
    }

    /// Two keys with the same packed encoding are the same key.
    pub proof fn lemma_packed_injective(a: ChunkKey, b: ChunkKey)
        requires
            a.packed() == b.packed(),
        ensures
            a == b,
    {
        let big: int = 0x1_0000_0000;
        let ra = biased(a.y) + biased(a.z) * big + a.lod_level as int * big * big;
        let rb = biased(b.y) + biased(b.z) * big + b.lod_level as int * big * big;
        let pa = biased(a.x) + ra * big;
        let pb = biased(b.x) + rb * big;
        assert(a.packed() as int == pa);
        assert(b.packed() as int == pb);
        lemma_fundamental_div_mod_converse(pa, big, ra, biased(a.x));
        lemma_fundamental_div_mod_converse(pb, big, rb, biased(b.x));
        let sa = biased(a.z) + a.lod_level as int * big;
        let sb = biased(b.z) + b.lod_level as int * big;
        assert(ra == biased(a.y) + sa * big) by (nonlinear_arith)
            requires ra == biased(a.y) + biased(a.z) * big + a.lod_level as int * big * big,
                sa == biased(a.z) + a.lod_level as int * big;
        assert(rb == biased(b.y) + sb * big) by (nonlinear_arith)
            requires rb == biased(b.y) + biased(b.z) * big + b.lod_level as int * big * big,
                sb == biased(b.z) + b.lod_level as int * big;
        lemma_fundamental_div_mod_converse(ra, big, sa, biased(a.y));
        lemma_fundamental_div_mod_converse(rb, big, sb, biased(b.y));
        lemma_fundamental_div_mod_converse(sa, big, a.lod_level as int, biased(a.z));
        lemma_fundamental_div_mod_converse(sb, big, b.lod_level as int, biased(b.z));
    }
}

/// Linear index of a voxel inside a chunk's block array.
pub open spec fn voxel_index(x: int, y: int, z: int) -> int {
    x + 64 * y + 4096 * z
}

/// Dense block ids of one 64³ chunk; id 0 is air.
pub struct ChunkVoxels {
    blocks: Vec<u8>,
}

impl ChunkVoxels {
    /// The stored block ids, indexed by `voxel_index`.
    pub closed spec fn voxels(self) -> Seq<u8> {
        self.blocks@
    }

    /// Block id at local coordinates `(x, y, z)`; air outside the chunk's storage.
    pub closed spec fn block_at(self, x: int, y: int, z: int) -> u8 {
        if 0 <= voxel_index(x, y, z) < self.blocks@.len() {
            self.blocks@[voxel_index(x, y, z)]
        } else {
            0
        }
    }

    /// A chunk filled with air: dense storage of `CHUNK_VOLUME` block ids,
    /// all 0.
    pub fn new() -> (c: ChunkVoxels)
        ensures
            c.voxels() == Seq::new(CHUNK_VOLUME as nat, |i: int| 0u8),
            forall|x: int, y: int, z: int|
                0 <= x < 64 && 0 <= y < 64 && 0 <= z < 64 ==> #[trigger] c.block_at(x, y, z) == 0,
    {
        let blocks = vec![0u8; CHUNK_VOLUME];
        let c = ChunkVoxels { blocks };
        assert(c.voxels() =~= Seq::new(CHUNK_VOLUME as nat, |i: int| 0u8));
        assert forall|x: int, y: int, z: int|
            0 <= x < 64 && 0 <= y < 64 && 0 <= z < 64 implies #[trigger] c.block_at(x, y, z) == 0 by {
            assert(0 <= voxel_index(x, y, z) < CHUNK_VOLUME);
        }
        c
    }

    /// Block id at `(x, y, z)`.
    pub fn block(&self, x: u8, y: u8, z: u8) -> (b: u8)
        requires
            x < 64,
            y < 64,
            z < 64,
        ensures
            b == self.block_at(x as int, y as int, z as int),
    {
        let idx = x as usize + 64 * y as usize + 4096 * z as usize;
        if idx < self.blocks.len() {
            self.blocks[idx]
        } else {
            0
        }
    }

    /// Sets the block id at `(x, y, z)`.
    pub fn set_block(&mut self, x: u8, y: u8, z: u8, block: u8)
        requires
            x < 64,
            y < 64,
            z < 64,
        ensures
            forall|i: int, j: int, k: int|
                0 <= i < 64 && 0 <= j < 64 && 0 <= k < 64 ==> #[trigger] final(self).block_at(i, j, k)
                    == if i == x && j == y && k == z {
                    block
                } else {
                    old(self).block_at(i, j, k)
                },
    {
        let idx = x as usize + 64 * y as usize + 4096 * z as usize;
        if idx >= self.blocks.len() {
            self.blocks.resize(CHUNK_VOLUME, 0u8);
        }
        self.blocks.set(idx, block);
        proof {
            assert forall|i: int, j: int, k: int|
                0 <= i < 64 && 0 <= j < 64 && 0 <= k < 64 implies #[trigger] self.block_at(i, j, k)
                    == if i == x && j == y && k == z {
                    block
                } else {
                    old(self).block_at(i, j, k)
                } by {
                if !(i == x && j == y && k == z) {
                    assert(voxel_index(i, j, k) != idx);
                }
            }
        }
    }
}

} // verus!
