//! Block classification and the per-block material table.

use vstd::prelude::*;

verus! {

/// Flag bit: block emits light.
pub const FLAG_EMISSIVE: u16 = 0x01;
/// Flag bit: block is transparent / alpha-tested.
pub const FLAG_TRANSPARENT: u16 = 0x02;
/// Flag bit: block has a metallic-roughness texture.
pub const FLAG_HAS_MR: u16 = 0x04;
/// Flag bit: block has a normal map texture.
pub const FLAG_HAS_NORMAL: u16 = 0x08;
/// Flag bit: block has an emissive map texture.
pub const FLAG_HAS_EMISSIVE_MAP: u16 = 0x10;
/// Flag bit: PBR maps sample from 32x32 texture arrays.
pub const FLAG_IS_32X32: u16 = 0x20;

/// No PBR texture assigned; the shader uses its defaults.
pub const NO_TEX: u16 = 0xFFFF;

pub const BLOCK_ID_LEAVES: u8 = 7;
pub const BLOCK_ID_WATER: u8 = 8;
pub const BLOCK_ID_LAMP: u8 = 9;

/// Leaves and water are the transparent blocks.
pub open spec fn transparent(block_id: u8) -> bool {
    block_id == BLOCK_ID_LEAVES || block_id == BLOCK_ID_WATER
}

/// A face of `current` is drawn against `neighbor`: never for air, always
/// against air, between two transparent blocks only when they differ, and
/// for an opaque block only against a transparent one.
pub open spec fn face_visible(current: u8, neighbor: u8) -> bool {
    if current == 0 {
        false
    } else if neighbor == 0 {
        true
    } else if transparent(current) {
        transparent(neighbor) && current != neighbor
    } else {
        transparent(neighbor)
    }
}

pub fn is_transparent_block(block_id: u8) -> (r: bool)
    ensures
        r == transparent(block_id),
{
    block_id == BLOCK_ID_LEAVES || block_id == BLOCK_ID_WATER
}

/// Which faces are drawn: air shows none; a solid block shows one against
/// air; no face is drawn between two equal blocks or against an opaque
/// solid block, so water and leaves are hidden behind stone; an opaque block
/// shows one against water or leaves; water and leaves show one against
/// each other.
pub proof fn law_face_visibility(current: u8, neighbor: u8)
    ensures
        current == 0 ==> !face_visible(current, neighbor),
        current != 0 && neighbor == 0 ==> face_visible(current, neighbor),
        current == neighbor ==> !face_visible(current, neighbor),
        neighbor != 0 && neighbor != BLOCK_ID_LEAVES && neighbor != BLOCK_ID_WATER ==> !face_visible(current, neighbor),
        current != 0 && current != BLOCK_ID_LEAVES && current != BLOCK_ID_WATER && (neighbor == BLOCK_ID_LEAVES
            || neighbor == BLOCK_ID_WATER) ==> face_visible(current, neighbor),
        (current == BLOCK_ID_LEAVES && neighbor == BLOCK_ID_WATER) || (current == BLOCK_ID_WATER && neighbor
            == BLOCK_ID_LEAVES) ==> face_visible(current, neighbor),
{
}

pub fn face_visible_against(current_block: u8, neighbor_block: u8) -> (r: bool)
    ensures
        r == face_visible(current_block, neighbor_block),
        current_block == 0 ==> !r,
        current_block != 0 && neighbor_block == 0 ==> r,
        current_block == neighbor_block ==> !r,
        neighbor_block != 0 && neighbor_block != BLOCK_ID_LEAVES && neighbor_block != BLOCK_ID_WATER ==> !r,
        current_block != 0 && current_block != BLOCK_ID_LEAVES && current_block != BLOCK_ID_WATER && (neighbor_block
            == BLOCK_ID_LEAVES || neighbor_block == BLOCK_ID_WATER) ==> r,
        (current_block == BLOCK_ID_LEAVES && neighbor_block == BLOCK_ID_WATER) || (current_block == BLOCK_ID_WATER
            && neighbor_block == BLOCK_ID_LEAVES) ==> r,
{
    if current_block == 0 {
        return false;
    }
    if neighbor_block == 0 {
        return true;
    }
    let current_transparent = is_transparent_block(current_block);
    let neighbor_transparent = is_transparent_block(neighbor_block);
    if current_transparent {
        neighbor_transparent && current_block != neighbor_block
    } else {
        neighbor_transparent
    }
}

/// Per-block material record (16 × u16): texture layers per face, flags,
/// PBR texture layers and an 8.8 fixed-point emissive intensity.
#[derive(Clone, Copy, Debug, PartialEq, Eq)]
pub struct BlockMaterial {
    pub top_texture: u16,
    pub side_texture: u16,
    pub bottom_texture: u16,
    pub flags: u16,
    pub top_mr: u16,
    pub side_mr: u16,
    pub bottom_mr: u16,
    pub top_normal: u16,
    pub side_normal: u16,
    pub bottom_normal: u16,
    pub top_emissive: u16,
    pub side_emissive: u16,
    pub bottom_emissive: u16,
    pub emissive_intensity: u16,
    pub _pad0: u16,
    pub _pad1: u16,
}

/// The all-zero material (used for air).
pub open spec fn zero_material() -> BlockMaterial {
    BlockMaterial {
        top_texture: 0,
        side_texture: 0,
        bottom_texture: 0,
        flags: 0,
        top_mr: 0,
        side_mr: 0,
        bottom_mr: 0,
        top_normal: 0,
        side_normal: 0,
        bottom_normal: 0,
        top_emissive: 0,
        side_emissive: 0,
        bottom_emissive: 0,
        emissive_intensity: 0,
        _pad0: 0,
        _pad1: 0,
    }
}

impl Default for BlockMaterial {
    fn default() -> (m: BlockMaterial)
        ensures
            m == zero_material(),
    {
        BlockMaterial {
            top_texture: 0,
            side_texture: 0,
            bottom_texture: 0,
            flags: 0,
            top_mr: 0,
            side_mr: 0,
            bottom_mr: 0,
            top_normal: 0,
            side_normal: 0,
            bottom_normal: 0,
            top_emissive: 0,
            side_emissive: 0,
            bottom_emissive: 0,
            emissive_intensity: 0,
            _pad0: 0,
            _pad1: 0,
        }
    }
}

/// A material with the given face layers, flags and intensity and no PBR maps.
pub open spec fn plain_material(top: u16, side: u16, bottom: u16, flags: u16, intensity: u16) -> BlockMaterial {
    BlockMaterial {
        top_texture: top,
        side_texture: side,
        bottom_texture: bottom,
        flags,
        top_mr: NO_TEX,
        side_mr: NO_TEX,
        bottom_mr: NO_TEX,
        top_normal: NO_TEX,
        side_normal: NO_TEX,
        bottom_normal: NO_TEX,
        top_emissive: NO_TEX,
        side_emissive: NO_TEX,
        bottom_emissive: NO_TEX,
        emissive_intensity: intensity,
        _pad0: 0,
        _pad1: 0,
    }
}

fn make_plain_material(top: u16, side: u16, bottom: u16, flags: u16, intensity: u16) -> (m: BlockMaterial)
    ensures
        m == plain_material(top, side, bottom, flags, intensity),
{
    BlockMaterial {
        top_texture: top,
        side_texture: side,
        bottom_texture: bottom,
        flags,
        top_mr: NO_TEX,
        side_mr: NO_TEX,
        bottom_mr: NO_TEX,
        top_normal: NO_TEX,
        side_normal: NO_TEX,
        bottom_normal: NO_TEX,
        top_emissive: NO_TEX,
        side_emissive: NO_TEX,
        bottom_emissive: NO_TEX,
        emissive_intensity: intensity,
        _pad0: 0,
        _pad1: 0,
    }
}

/// The default table: air, dirt, grass, stone, sand, log, planks, leaves,
/// water and lamp, with their texture-array layers.
pub open spec fn default_entries() -> Seq<BlockMaterial> {
    seq![
        zero_material(),
        plain_material(1, 1, 1, 0, 0),
        plain_material(2, 3, 1, 0, 0),
        plain_material(4, 4, 4, 0, 0),
        plain_material(5, 5, 5, 0, 0),
        plain_material(7, 6, 7, 0, 0),
        plain_material(8, 8, 8, 0, 0),
        plain_material(9, 9, 9, FLAG_TRANSPARENT, 0),
        plain_material(10, 10, 10, FLAG_TRANSPARENT, 0),
        plain_material(11, 11, 11, FLAG_EMISSIVE, 512),
    ]
}

/// Materials indexed by block id.
pub struct MaterialTable {
    entries: Vec<BlockMaterial>,
}

impl MaterialTable {
    pub closed spec fn view_entries(self) -> Seq<BlockMaterial> {
        self.entries@
    }

    /// The built-in table for the nine block types plus air.
    pub fn default_table() -> (t: MaterialTable)
        ensures
            t.view_entries() == default_entries(),
    {
        let mut entries: Vec<BlockMaterial> = Vec::new();
        entries.push(BlockMaterial::default());
        entries.push(make_plain_material(1, 1, 1, 0, 0));
        entries.push(make_plain_material(2, 3, 1, 0, 0));
        entries.push(make_plain_material(4, 4, 4, 0, 0));
        entries.push(make_plain_material(5, 5, 5, 0, 0));
        entries.push(make_plain_material(7, 6, 7, 0, 0));
        entries.push(make_plain_material(8, 8, 8, 0, 0));
        entries.push(make_plain_material(9, 9, 9, FLAG_TRANSPARENT, 0));
        entries.push(make_plain_material(10, 10, 10, FLAG_TRANSPARENT, 0));
        entries.push(make_plain_material(11, 11, 11, FLAG_EMISSIVE, 2 << 8));
        let t = MaterialTable { entries };
        assert(2u16 << 8u16 == 512) by (bit_vector);
        assert(t.view_entries() =~= default_entries());
        t
    }

    /// The underlying entries, indexed by block id.
    pub fn entries(&self) -> (e: &[BlockMaterial])
        ensures
            e@ == self.view_entries(),
    {
        self.entries.as_slice()
    }
}

} // verus!
