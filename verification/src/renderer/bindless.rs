//! The global bindless descriptor set shared by every pipeline: its
//! bindings, the shader stages that see each one, and the descriptor pool
//! that backs them. Every binding is partially bound and may be updated
//! after binding.

use vstd::prelude::*;

verus! {

/// Number of bindings in the bindless set.
pub const BINDING_COUNT: usize = 25;

/// Scene and chunk metadata storage buffer (instances, indirect templates, draw slots, dense indirect).
pub const BINDING_SCENE: u32 = 0;
/// Indirect templates (a region of the scene buffer).
pub const BINDING_INDIRECT_TEMPLATES: u32 = 1;
/// Draw slots (a region of the scene buffer).
pub const BINDING_DRAW_SLOTS: u32 = 2;
/// Dense indirect output (a region of the scene buffer).
pub const BINDING_DENSE_INDIRECT: u32 = 3;
/// Frustum planes storage buffer.
pub const BINDING_FRUSTUM_PLANES: u32 = 4;
/// Draw count storage buffer.
pub const BINDING_DRAW_COUNT: u32 = 5;
/// Hi-Z configuration storage buffer.
pub const BINDING_HIZ_CONFIG: u32 = 6;
/// Hi-Z pyramid sampled image.
pub const BINDING_HIZ_PYRAMID: u32 = 7;
/// Material storage buffer.
pub const BINDING_MATERIAL: u32 = 8;
/// Texture array sampled image.
pub const BINDING_TEXTURE_ARRAY: u32 = 9;
/// Meshlet metadata storage buffer.
pub const BINDING_MESHLET_META: u32 = 10;
/// Meshlet vertex storage buffer.
pub const BINDING_MESHLET_VERTEX: u32 = 11;
/// Meshlet triangle index storage buffer.
pub const BINDING_MESHLET_TRI: u32 = 12;
/// Visible meshlet list storage buffer (cull output).
pub const BINDING_VISIBLE_MESHLET: u32 = 13;
/// Meshlet indirect command storage buffer.
pub const BINDING_MESHLET_INDIRECT: u32 = 14;
/// Visible meshlet count storage buffer.
pub const BINDING_MESHLET_COUNT: u32 = 15;
/// Cascaded shadow maps sampled image.
pub const BINDING_CSM_SHADOW_MAPS: u32 = 16;
/// SSAO sampled image.
pub const BINDING_SSAO_TEXTURE: u32 = 17;
/// Lighting parameters storage buffer.
pub const BINDING_LIGHTING_UBO: u32 = 18;
/// Metallic-roughness texture array sampled image.
pub const BINDING_MR_TEXTURE_ARRAY: u32 = 19;
/// Normal map texture array sampled image.
pub const BINDING_NORMAL_TEXTURE_ARRAY: u32 = 20;
/// Emissive texture array sampled image.
pub const BINDING_EMISSIVE_TEXTURE_ARRAY: u32 = 21;
/// Point light storage buffer.
pub const BINDING_POINT_LIGHT_SSBO: u32 = 22;
/// Sky parameters storage buffer.
pub const BINDING_SKY_PARAMS: u32 = 23;
/// SSAO blur intermediate storage image.
pub const BINDING_SSAO_BLUR_INTERMEDIATE: u32 = 24;

/// Shader stage bits, with Vulkan's values.
pub const STAGE_VERTEX: u32 = 0x1;
pub const STAGE_FRAGMENT: u32 = 0x10;
pub const STAGE_COMPUTE: u32 = 0x20;
pub const STAGE_TASK: u32 = 0x40;
pub const STAGE_MESH: u32 = 0x80;

/// The kind of descriptor a binding holds.
#[derive(Clone, Copy, Debug, PartialEq, Eq, Structural)]
pub enum DescriptorKind {
    StorageBuffer,
    CombinedImageSampler,
    StorageImage,
}

/// One binding of the bindless set layout.
#[derive(Clone, Copy, Debug, PartialEq, Eq, Structural)]
pub struct BindlessBinding {
    pub binding: u32,
    pub kind: DescriptorKind,
    pub count: u32,
    /// Union of `STAGE_*` bits.
    pub stages: u32,
}

/// The task and mesh stage bits when mesh shaders are in use, else none.
pub open spec fn mesh_stage_extra_spec(mesh_shader_supported: bool) -> u32 {
    if mesh_shader_supported {
        STAGE_TASK | STAGE_MESH
    } else {
        0
    }
}

/// Stage bits added to the bindings that task and mesh shaders read.
pub fn mesh_stage_extra(mesh_shader_supported: bool) -> (bits: u32)
    ensures
        bits == mesh_stage_extra_spec(mesh_shader_supported),
{
    if mesh_shader_supported {
        STAGE_TASK | STAGE_MESH
    } else {
        0
    }
}

pub open spec fn slot(binding: u32, kind: DescriptorKind, stages: u32) -> BindlessBinding {
    BindlessBinding { binding, kind, count: 1, stages }
}

/// The set layout: scene, culling and meshlet buffers for compute (the
/// scene and meshlet buffers also for vertex shaders), material and
/// lighting data and textures for fragment shaders; with mesh shaders,
/// the buffers those read also reach the task and mesh stages.
pub open spec fn bindless_layout(mesh_shader_supported: bool) -> Seq<BindlessBinding> {
    seq![
        slot(BINDING_SCENE, DescriptorKind::StorageBuffer, STAGE_COMPUTE | STAGE_VERTEX | mesh_stage_extra_spec(mesh_shader_supported)),
        slot(BINDING_INDIRECT_TEMPLATES, DescriptorKind::StorageBuffer, STAGE_COMPUTE),
        slot(BINDING_DRAW_SLOTS, DescriptorKind::StorageBuffer, STAGE_COMPUTE),
        slot(BINDING_DENSE_INDIRECT, DescriptorKind::StorageBuffer, STAGE_COMPUTE),
        slot(BINDING_FRUSTUM_PLANES, DescriptorKind::StorageBuffer, STAGE_COMPUTE),
        slot(BINDING_DRAW_COUNT, DescriptorKind::StorageBuffer, STAGE_COMPUTE),
        slot(BINDING_HIZ_CONFIG, DescriptorKind::StorageBuffer, STAGE_COMPUTE),
        slot(BINDING_HIZ_PYRAMID, DescriptorKind::CombinedImageSampler, STAGE_COMPUTE),
        slot(BINDING_MATERIAL, DescriptorKind::StorageBuffer, STAGE_FRAGMENT | mesh_stage_extra_spec(mesh_shader_supported)),
        slot(BINDING_TEXTURE_ARRAY, DescriptorKind::CombinedImageSampler, STAGE_FRAGMENT),
        slot(BINDING_MESHLET_META, DescriptorKind::StorageBuffer, STAGE_COMPUTE | STAGE_VERTEX | mesh_stage_extra_spec(mesh_shader_supported)),
        slot(BINDING_MESHLET_VERTEX, DescriptorKind::StorageBuffer, STAGE_COMPUTE | STAGE_VERTEX | mesh_stage_extra_spec(mesh_shader_supported)),
        slot(BINDING_MESHLET_TRI, DescriptorKind::StorageBuffer, STAGE_COMPUTE | mesh_stage_extra_spec(mesh_shader_supported)),
        slot(BINDING_VISIBLE_MESHLET, DescriptorKind::StorageBuffer, STAGE_COMPUTE | STAGE_VERTEX | mesh_stage_extra_spec(mesh_shader_supported)),
        slot(BINDING_MESHLET_INDIRECT, DescriptorKind::StorageBuffer, STAGE_COMPUTE | mesh_stage_extra_spec(mesh_shader_supported)),
        slot(BINDING_MESHLET_COUNT, DescriptorKind::StorageBuffer, STAGE_COMPUTE | mesh_stage_extra_spec(mesh_shader_supported)),
        slot(BINDING_CSM_SHADOW_MAPS, DescriptorKind::CombinedImageSampler, STAGE_FRAGMENT),
        slot(BINDING_SSAO_TEXTURE, DescriptorKind::CombinedImageSampler, STAGE_FRAGMENT),
        slot(BINDING_LIGHTING_UBO, DescriptorKind::StorageBuffer, STAGE_VERTEX | STAGE_FRAGMENT),
        slot(BINDING_MR_TEXTURE_ARRAY, DescriptorKind::CombinedImageSampler, STAGE_FRAGMENT),
        slot(BINDING_NORMAL_TEXTURE_ARRAY, DescriptorKind::CombinedImageSampler, STAGE_FRAGMENT),
        slot(BINDING_EMISSIVE_TEXTURE_ARRAY, DescriptorKind::CombinedImageSampler, STAGE_FRAGMENT),
        slot(BINDING_POINT_LIGHT_SSBO, DescriptorKind::StorageBuffer, STAGE_FRAGMENT),
        slot(BINDING_SKY_PARAMS, DescriptorKind::StorageBuffer, STAGE_VERTEX | STAGE_FRAGMENT),
        slot(BINDING_SSAO_BLUR_INTERMEDIATE, DescriptorKind::StorageImage, STAGE_COMPUTE),
    ]
}

/// The layout's bindings: one descriptor each, binding `i` at position
/// `i`.
pub fn bindless_layout_bindings(mesh_shader_supported: bool) -> (bindings: [BindlessBinding; 25])
    ensures
        bindings@ == bindless_layout(mesh_shader_supported),
        forall|i: int| 0 <= i < 25 ==> (#[trigger] bindings@[i]).binding == i && bindings@[i].count == 1,
{
    let mesh_extra = mesh_stage_extra(mesh_shader_supported);
    let bindings = [
        BindlessBinding { binding: BINDING_SCENE, kind: DescriptorKind::StorageBuffer, count: 1, stages: STAGE_COMPUTE | STAGE_VERTEX | mesh_extra },
        BindlessBinding { binding: BINDING_INDIRECT_TEMPLATES, kind: DescriptorKind::StorageBuffer, count: 1, stages: STAGE_COMPUTE },
        BindlessBinding { binding: BINDING_DRAW_SLOTS, kind: DescriptorKind::StorageBuffer, count: 1, stages: STAGE_COMPUTE },
        BindlessBinding { binding: BINDING_DENSE_INDIRECT, kind: DescriptorKind::StorageBuffer, count: 1, stages: STAGE_COMPUTE },
        BindlessBinding { binding: BINDING_FRUSTUM_PLANES, kind: DescriptorKind::StorageBuffer, count: 1, stages: STAGE_COMPUTE },
        BindlessBinding { binding: BINDING_DRAW_COUNT, kind: DescriptorKind::StorageBuffer, count: 1, stages: STAGE_COMPUTE },
        BindlessBinding { binding: BINDING_HIZ_CONFIG, kind: DescriptorKind::StorageBuffer, count: 1, stages: STAGE_COMPUTE },
        BindlessBinding { binding: BINDING_HIZ_PYRAMID, kind: DescriptorKind::CombinedImageSampler, count: 1, stages: STAGE_COMPUTE },
        BindlessBinding { binding: BINDING_MATERIAL, kind: DescriptorKind::StorageBuffer, count: 1, stages: STAGE_FRAGMENT | mesh_extra },
        BindlessBinding { binding: BINDING_TEXTURE_ARRAY, kind: DescriptorKind::CombinedImageSampler, count: 1, stages: STAGE_FRAGMENT },
        BindlessBinding { binding: BINDING_MESHLET_META, kind: DescriptorKind::StorageBuffer, count: 1, stages: STAGE_COMPUTE | STAGE_VERTEX | mesh_extra },
        BindlessBinding { binding: BINDING_MESHLET_VERTEX, kind: DescriptorKind::StorageBuffer, count: 1, stages: STAGE_COMPUTE | STAGE_VERTEX | mesh_extra },
        BindlessBinding { binding: BINDING_MESHLET_TRI, kind: DescriptorKind::StorageBuffer, count: 1, stages: STAGE_COMPUTE | mesh_extra },
        BindlessBinding { binding: BINDING_VISIBLE_MESHLET, kind: DescriptorKind::StorageBuffer, count: 1, stages: STAGE_COMPUTE | STAGE_VERTEX | mesh_extra },
        BindlessBinding { binding: BINDING_MESHLET_INDIRECT, kind: DescriptorKind::StorageBuffer, count: 1, stages: STAGE_COMPUTE | mesh_extra },
        BindlessBinding { binding: BINDING_MESHLET_COUNT, kind: DescriptorKind::StorageBuffer, count: 1, stages: STAGE_COMPUTE | mesh_extra },
        BindlessBinding { binding: BINDING_CSM_SHADOW_MAPS, kind: DescriptorKind::CombinedImageSampler, count: 1, stages: STAGE_FRAGMENT },
        BindlessBinding { binding: BINDING_SSAO_TEXTURE, kind: DescriptorKind::CombinedImageSampler, count: 1, stages: STAGE_FRAGMENT },
        BindlessBinding { binding: BINDING_LIGHTING_UBO, kind: DescriptorKind::StorageBuffer, count: 1, stages: STAGE_VERTEX | STAGE_FRAGMENT },
        BindlessBinding { binding: BINDING_MR_TEXTURE_ARRAY, kind: DescriptorKind::CombinedImageSampler, count: 1, stages: STAGE_FRAGMENT },
        BindlessBinding { binding: BINDING_NORMAL_TEXTURE_ARRAY, kind: DescriptorKind::CombinedImageSampler, count: 1, stages: STAGE_FRAGMENT },
        BindlessBinding { binding: BINDING_EMISSIVE_TEXTURE_ARRAY, kind: DescriptorKind::CombinedImageSampler, count: 1, stages: STAGE_FRAGMENT },
        BindlessBinding { binding: BINDING_POINT_LIGHT_SSBO, kind: DescriptorKind::StorageBuffer, count: 1, stages: STAGE_FRAGMENT },
        BindlessBinding { binding: BINDING_SKY_PARAMS, kind: DescriptorKind::StorageBuffer, count: 1, stages: STAGE_VERTEX | STAGE_FRAGMENT },
        BindlessBinding { binding: BINDING_SSAO_BLUR_INTERMEDIATE, kind: DescriptorKind::StorageImage, count: 1, stages: STAGE_COMPUTE },
    ];
    assert(bindings@ =~= bindless_layout(mesh_shader_supported));
    bindings
}

/// Number of bindings of kind `kind` in `layout`.
pub open spec fn kind_count(layout: Seq<BindlessBinding>, kind: DescriptorKind) -> nat
    decreases layout.len(),
{
    if layout.len() == 0 {
        0
    } else {
        kind_count(layout.drop_last(), kind) + if layout.last().kind == kind {
            layout.last().count as nat
        } else {
            0
        }
    }
}

/// Descriptor pool sizes for the single bindless set: storage buffers,
/// combined image samplers and storage images.
pub open spec fn bindless_pool() -> Seq<(DescriptorKind, u32)> {
    seq![
        (DescriptorKind::StorageBuffer, 17u32),
        (DescriptorKind::CombinedImageSampler, 7u32),
        (DescriptorKind::StorageImage, 1u32),
    ]
}

/// The pool sizes the bindless set is allocated from.
pub fn bindless_pool_sizes() -> (sizes: [(DescriptorKind, u32); 3])
    ensures
        sizes@ == bindless_pool(),
{
    let sizes = [
        (DescriptorKind::StorageBuffer, 17u32),
        (DescriptorKind::CombinedImageSampler, 7u32),
        (DescriptorKind::StorageImage, 1u32),
    ];
    assert(sizes@ =~= bindless_pool());
    sizes
}

/// The pool holds exactly the descriptors the layout declares, kind by
/// kind, whether or not mesh shaders are in use.
pub proof fn law_pool_covers_layout(mesh_shader_supported: bool)
    ensures
        forall|i: int|
            0 <= i < 3 ==> kind_count(bindless_layout(mesh_shader_supported), (#[trigger] bindless_pool()[i]).0)
                == bindless_pool()[i].1,
        kind_count(bindless_layout(mesh_shader_supported), DescriptorKind::StorageBuffer)
            + kind_count(bindless_layout(mesh_shader_supported), DescriptorKind::CombinedImageSampler)
            + kind_count(bindless_layout(mesh_shader_supported), DescriptorKind::StorageImage) == BINDING_COUNT,
{
    reveal_with_fuel(kind_count, 26);
    assert(kind_count(bindless_layout(mesh_shader_supported), DescriptorKind::StorageBuffer) == 17);
    assert(kind_count(bindless_layout(mesh_shader_supported), DescriptorKind::CombinedImageSampler) == 7);
    assert(kind_count(bindless_layout(mesh_shader_supported), DescriptorKind::StorageImage) == 1);
}

/// Bindings of the meshlet pool's buffers, in the order metadata, vertices,
/// triangles, visible list, indirect commands, count.
pub fn meshlet_buffer_bindings() -> (b: [u32; 6])
    ensures
        b@ == seq![
            BINDING_MESHLET_META,
            BINDING_MESHLET_VERTEX,
            BINDING_MESHLET_TRI,
            BINDING_VISIBLE_MESHLET,
            BINDING_MESHLET_INDIRECT,
            BINDING_MESHLET_COUNT,
        ],
{
    let b = [
        BINDING_MESHLET_META,
        BINDING_MESHLET_VERTEX,
        BINDING_MESHLET_TRI,
        BINDING_VISIBLE_MESHLET,
        BINDING_MESHLET_INDIRECT,
        BINDING_MESHLET_COUNT,
    ];
    assert(b@ =~= seq![
        BINDING_MESHLET_META,
        BINDING_MESHLET_VERTEX,
        BINDING_MESHLET_TRI,
        BINDING_VISIBLE_MESHLET,
        BINDING_MESHLET_INDIRECT,
        BINDING_MESHLET_COUNT,
    ]);
    b
}

} // verus!
