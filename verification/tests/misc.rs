use revoxelation::chunk::{ChunkKey, ChunkVoxels};
use revoxelation::material::{face_visible_against, is_transparent_block, MaterialTable, BLOCK_ID_LAMP, FLAG_EMISSIVE};
use revoxelation::meshing::greedy::build_greedy_mesh;
use revoxelation::meshing::invalidation::{
    fine_chunk_boundary_mask, opposite_face, MeshDirtyCause, MeshDirtyRecord, MeshingState, FACE_NEG_X, FACE_POS_X,
};
use revoxelation::meshing::packing::{
    append_lod_clusters, boundary_locks, lod_target_index_count, merge_group, meshlet_mesh_from_clusters, pack_vertex,
    simplification_effective, unpack_position, MeshletCluster, MeshletDescriptor, MeshletMesh, PackedMesh, PackedVertex,
    NO_PARENT_ERROR,
};
use revoxelation::meshing::ChunkNeighborSet;
use revoxelation::renderer::camera::{CameraKey, KeysPressed};
use revoxelation::renderer::device::{
    device_setup_plan, find_queue_families, missing_vulkan12_features, select_physical_device, DeviceCandidate, DeviceSelection,
    DeviceSelectionError, QueueFamilySupport, MESH_SHADER_EXTENSION_NAME, REQUIRED_VULKAN12_FEATURE_NAMES,
    SWAPCHAIN_EXTENSION_NAME,
};
use revoxelation::renderer::graph::{
    AccessType, CullPass, EguiPass, FramePass, PassNode, PassSetupContext, RenderGraph, ResourceAccess, ResourceId,
    ShadowPass, RES_SHADOW_MAPS, RES_SWAPCHAIN_COLOR,
};
use revoxelation::renderer::hiz::{
    hiz_descriptor_sets, hiz_mip_count, hiz_mip_dispatches, HiZMipDispatch, HiZSetBinding, HiZSource,
};
use revoxelation::renderer::hot_reload::{previous_frame_slot, shader_kind, ShaderKindError, ShaderStage};
use revoxelation::renderer::instance::{resolve_debug_instance_config, InstanceDebugConfig};
use revoxelation::renderer::light_sampler::{
    build_shift_mapping, importance_linear_index, signature_from_emitter, IMPORTANCE_MAP_DIMS, INVALID_EMITTER_INDEX,
};
use revoxelation::renderer::lighting::FogType;
use revoxelation::renderer::passes::{
    ssao_extent, ssao_needs_recreate, DispatchGrid, PrepareContext, SvgfPass, DEFAULT_WORKGROUP_SIZE,
};
use revoxelation::renderer::shaders::shader_source_files;

fn no_dirty() -> MeshDirtyRecord {
    MeshDirtyRecord { causes: Vec::new(), source_revision: 0, finer_neighbor_face_mask: 0 }
}

#[test]
fn single_block_meshes_to_six_quads() {
    let mut chunk = ChunkVoxels::new();
    chunk.set_block(1, 1, 1, 1);
    let mesh = build_greedy_mesh(&chunk, &ChunkNeighborSet::default(), &no_dirty());
    assert_eq!(mesh.quad_count, 6);
    assert_eq!(mesh.vertices.len(), 24);
    assert_eq!(mesh.indices.len(), 36);
}

#[test]
fn adjacent_equal_blocks_merge_into_shared_quads() {
    let mut chunk = ChunkVoxels::new();
    chunk.set_block(3, 3, 3, 2);
    chunk.set_block(4, 3, 3, 2);
    let mesh = build_greedy_mesh(&chunk, &ChunkNeighborSet::default(), &no_dirty());
    assert_eq!(mesh.quad_count, 6);
    assert_eq!(mesh.indices.len(), 36);
}

#[test]
fn empty_chunk_has_empty_mesh() {
    let chunk = ChunkVoxels::new();
    let mesh = build_greedy_mesh(&chunk, &ChunkNeighborSet::default(), &no_dirty());
    assert_eq!(mesh.quad_count, 0);
    assert!(mesh.vertices.is_empty());
    assert!(mesh.indices.is_empty());
}

#[test]
fn chunk_blocks_read_back_what_was_written() {
    let mut chunk = ChunkVoxels::new();
    chunk.set_block(63, 0, 17, 9);
    assert_eq!(chunk.block(63, 0, 17), 9);
    assert_eq!(chunk.block(0, 0, 0), 0);
}

#[test]
fn packed_vertex_position_round_trips() {
    let v = pack_vertex([5, 64, 127], 3, 0xBEEF, [1, 2], 2);
    assert_eq!(unpack_position(&v), [5, 64, 127]);
    assert_eq!(v.0[1] & 0xFFFF, 0xBEEF);
}

#[test]
fn distinct_chunk_keys_pack_differently() {
    let a = ChunkKey::new(1, -2, 3, 0);
    let b = ChunkKey::new(-2, 1, 3, 0);
    let c = ChunkKey::new(1, -2, 3, 1);
    assert_ne!(a.pack(), b.pack());
    assert_ne!(a.pack(), c.pack());
    assert_eq!(a.pack(), ChunkKey::new(1, -2, 3, 0).pack());
}

#[test]
fn face_masks_and_boundaries() {
    assert_eq!(opposite_face(FACE_POS_X), FACE_NEG_X);
    assert_eq!(opposite_face(3), 0);
    assert_eq!(fine_chunk_boundary_mask(ChunkKey::new(0, 1, -1, 0)), 2 | 4 | 16);
}

#[test]
fn dirty_chunks_are_queued_once_and_batched_in_order() {
    let mut state = MeshingState::default();
    let a = ChunkKey::new(0, 0, 0, 0);
    let b = ChunkKey::new(1, 0, 0, 0);
    state.mark_dirty(a, MeshDirtyCause::GeneratedPayload, 1);
    state.mark_dirty(b, MeshDirtyCause::GeneratedPayload, 1);
    state.mark_dirty(a, MeshDirtyCause::BorderTouched { face_mask: FACE_POS_X }, 2);
    assert_eq!(state.queued.len(), 2);
    let record = state.dirty.get(&a.pack()).unwrap();
    assert_eq!(
        record.causes,
        vec![
            MeshDirtyCause::GeneratedPayload,
            MeshDirtyCause::RevisionMismatch,
            MeshDirtyCause::BorderTouched { face_mask: FACE_POS_X }
        ]
    );
    assert_eq!(record.source_revision, 2);
    let batch = state.take_dirty_batch(1);
    assert_eq!(batch, vec![a]);
    let batch = state.take_dirty_batch(8);
    assert_eq!(batch, vec![b]);
    assert!(state.queued.is_empty());
}

#[test]
fn material_transparency_and_face_visibility() {
    assert!(is_transparent_block(7));
    assert!(is_transparent_block(8));
    assert!(!is_transparent_block(1));
    assert!(!face_visible_against(0, 1));
    assert!(face_visible_against(1, 0));
    assert!(!face_visible_against(1, 2));
    assert!(face_visible_against(1, 8));
    assert!(!face_visible_against(8, 8));
    assert!(face_visible_against(7, 8));
    let table = MaterialTable::default_table();
    assert_eq!(table.entries().len(), 10);
    assert_eq!(table.entries()[BLOCK_ID_LAMP as usize].flags, FLAG_EMISSIVE);
    assert_eq!(table.entries()[BLOCK_ID_LAMP as usize].emissive_intensity, 512);
}

#[test]
fn hiz_mip_count_covers_halvings_to_one_texel() {
    assert_eq!(hiz_mip_count(0, 0), 1);
    assert_eq!(hiz_mip_count(1, 1), 1);
    assert_eq!(hiz_mip_count(2, 1), 2);
    assert_eq!(hiz_mip_count(1024, 512), 11);
    assert_eq!(hiz_mip_count(1920, 1080), 12);
    assert_eq!(hiz_mip_count(3, 4000), 13);
    assert_eq!(hiz_mip_count(4096, 4096), 13);
    assert_eq!(hiz_mip_count(u32::MAX, 1), 33);
}

#[test]
fn shift_mapping_points_to_first_matching_emitter() {
    assert_eq!(build_shift_mapping(&[], &[1, 2]), vec![INVALID_EMITTER_INDEX]);
    assert_eq!(build_shift_mapping(&[5, 7, 9], &[9, 5, 5]), vec![1, INVALID_EMITTER_INDEX, 0]);
    assert_eq!(build_shift_mapping(&[3], &[]), vec![INVALID_EMITTER_INDEX]);
}

#[test]
fn emitter_signature_is_deterministic_and_position_sensitive() {
    let a = signature_from_emitter([4, 8, -12, 16]);
    assert_eq!(a, signature_from_emitter([4, 8, -12, 16]));
    assert_ne!(a, signature_from_emitter([4, 8, -12, 17]));
    let mut h = 0x9e37_79b9u32;
    h ^= 1u32.wrapping_mul(0x85eb_ca6b);
    h ^= h >> 16;
    h = h.wrapping_mul(0x7feb_352d);
    h ^= h >> 15;
    h = h.wrapping_mul(0x846c_a68b);
    assert_eq!(signature_from_emitter([1, 0, 0, 0]), h ^ (h >> 16));
}

#[test]
fn importance_index_is_x_fastest() {
    assert_eq!(importance_linear_index([1, 2, 3], IMPORTANCE_MAP_DIMS), 1 + 2 * 64 + 3 * 64 * 32);
    assert_eq!(importance_linear_index([63, 31, 63], IMPORTANCE_MAP_DIMS), 64 * 32 * 64 - 1);
}

#[test]
fn missing_features_are_listed_in_check_order() {
    assert!(missing_vulkan12_features([true; 7]).is_empty());
    let missing = missing_vulkan12_features([false, true, true, false, true, true, false]);
    assert_eq!(
        missing,
        vec![REQUIRED_VULKAN12_FEATURE_NAMES[0], REQUIRED_VULKAN12_FEATURE_NAMES[3], "draw_indirect_count"]
    );
}

fn candidate(families: Option<(u32, u32)>, features: bool, missing: Vec<&'static str>, discrete: bool) -> DeviceCandidate {
    DeviceCandidate {
        queue_families: families,
        supports_extensions: true,
        supports_swapchain: true,
        supports_required_features: features,
        missing_vulkan12: missing,
        is_discrete: discrete,
    }
}

#[test]
fn device_selection_prefers_first_discrete_gpu() {
    let devices = vec![
        candidate(Some((0, 0)), true, vec![], false),
        candidate(Some((1, 2)), true, vec![], true),
        candidate(Some((3, 3)), true, vec![], true),
    ];
    assert_eq!(
        select_physical_device(&devices),
        Ok(DeviceSelection { index: 1, graphics_family: 1, present_family: 2 })
    );
    let integrated = vec![candidate(None, true, vec![], true), candidate(Some((4, 5)), true, vec![], false)];
    assert_eq!(
        select_physical_device(&integrated),
        Ok(DeviceSelection { index: 1, graphics_family: 4, present_family: 5 })
    );
}

#[test]
fn device_selection_errors_name_the_reason() {
    assert_eq!(select_physical_device(&vec![]), Err(DeviceSelectionError::NoSuitableDevice));
    let lacking = vec![
        candidate(Some((0, 0)), true, vec!["draw_indirect_count"], true),
        candidate(Some((0, 0)), false, vec![], true),
        candidate(Some((0, 0)), true, vec!["descriptor_indexing"], false),
    ];
    assert_eq!(select_physical_device(&lacking), Err(DeviceSelectionError::MissingVulkan12 { index: 2 }));
    let old = vec![candidate(Some((0, 0)), false, vec![], true), candidate(None, true, vec![], true)];
    assert_eq!(select_physical_device(&old), Err(DeviceSelectionError::MissingRequiredFeatures));
}

#[test]
fn debug_config_requires_debug_build_and_layers() {
    let layers = vec!["VK_LAYER_KHRONOS_validation".to_string()];
    let exts = vec!["VK_KHR_surface".to_string(), "VK_EXT_debug_utils".to_string()];
    assert_eq!(
        resolve_debug_instance_config(true, &layers, &exts),
        InstanceDebugConfig { validation_layer_enabled: true, debug_utils_enabled: true }
    );
    assert_eq!(
        resolve_debug_instance_config(false, &layers, &exts),
        InstanceDebugConfig { validation_layer_enabled: false, debug_utils_enabled: false }
    );
    assert_eq!(
        resolve_debug_instance_config(true, &[], &exts),
        InstanceDebugConfig { validation_layer_enabled: false, debug_utils_enabled: false }
    );
    assert_eq!(
        resolve_debug_instance_config(true, &layers, &[]),
        InstanceDebugConfig { validation_layer_enabled: true, debug_utils_enabled: false }
    );
}

#[test]
fn passes_declare_their_resources() {
    let mut ctx = PassSetupContext::new();
    CullPass.setup(&mut ctx);
    assert_eq!(ctx.reads.len(), 5);
    assert_eq!(ctx.writes.len(), 5);
    let mut shadow = PassSetupContext::new();
    ShadowPass.setup(&mut shadow);
    assert_eq!(shadow.writes, vec![ResourceAccess { resource: ResourceId(RES_SHADOW_MAPS), access: AccessType::DepthWrite }]);
    let mut egui = PassSetupContext::new();
    EguiPass.setup(&mut egui);
    assert!(egui.reads.is_empty());
    assert_eq!(egui.writes[0].resource, ResourceId(RES_SWAPCHAIN_COLOR));
    assert_eq!(CullPass.name(), "cull");
}

#[test]
fn dispatch_grid_rounds_up_and_never_uses_zero() {
    let grid = DispatchGrid::new(1920, 1080, DEFAULT_WORKGROUP_SIZE[0], DEFAULT_WORKGROUP_SIZE[1]);
    assert_eq!(grid.groups(), [240, 135]);
    let odd = DispatchGrid::new(0, 17, 0, 8);
    assert_eq!(odd.extent, [1, 17]);
    assert_eq!(odd.workgroup, [1, 8]);
    assert_eq!(odd.groups(), [1, 3]);
    assert_eq!(DispatchGrid::new(u32::MAX, 1, 8, 1).groups(), [536870912, 1]);
}

#[test]
fn svgf_readiness_needs_every_atrous_bind_group() {
    let mut context = PrepareContext {
        dispatch: DispatchGrid::new(8, 8, 8, 8),
        trace_bind_group_ready: true,
        reistir_bind_group_ready: true,
        svgf_init_bind_group_ready: true,
        svgf_resolve_bind_group_ready: true,
        svgf_atrous_bind_group_count: 2,
        svgf_passes: 3,
    };
    assert!(!context.svgf_ready());
    assert_eq!(SvgfPass.atrous_dispatch_count(&context), 2);
    context.svgf_atrous_bind_group_count = 5;
    assert!(context.svgf_ready());
    assert_eq!(SvgfPass.atrous_dispatch_count(&context), 3);
    assert!(context.trace_ready() && context.reistir_ready());
}

#[test]
fn fog_types_and_names() {
    let names: Vec<&str> = FogType::all().iter().map(|f| f.as_str()).collect();
    assert_eq!(names, vec!["Linear", "Exponential", "Exp Squared", "Height"]);
}

#[test]
fn movement_keys_track_presses() {
    let mut keys = KeysPressed::default();
    assert!(!keys.any_pressed());
    keys.set(CameraKey::Up, true);
    assert!(keys.any_pressed() && keys.up);
    keys.set(CameraKey::Up, false);
    assert!(!keys.any_pressed());
}

#[test]
fn shader_sources_and_stages() {
    let files = shader_source_files();
    assert_eq!(files.len(), 12);
    assert_eq!(files[0], "shaders/chunk_mesh.vert");
    assert_eq!(files[11], "shaders/shadow_depth.vert");
    assert_eq!(shader_kind("shaders/egui.frag"), Ok(ShaderStage::Fragment));
    assert_eq!(shader_kind("a.vert"), Ok(ShaderStage::Vertex));
    assert_eq!(shader_kind("shaders/chunk_cull.comp"), Ok(ShaderStage::Compute));
    assert_eq!(shader_kind("shaders/meshlet.task"), Err(ShaderKindError::UnsupportedExtension));
    assert_eq!(shader_kind("vert"), Err(ShaderKindError::UnsupportedExtension));
}

#[test]
fn previous_readback_slot_wraps() {
    assert_eq!(previous_frame_slot(0, 3), 2);
    assert_eq!(previous_frame_slot(2, 3), 1);
}

#[test]
fn clusters_assemble_into_meshlet_mesh() {
    let vertices: Vec<PackedVertex> = (0..5u8).map(|i| pack_vertex([i, 0, 0], 0, 1, [0, 0], 0)).collect();
    let packed = PackedMesh {
        vertices: vertices.clone(),
        indices: vec![0, 1, 2, 2, 3, 4],
        quad_count: 1,
        aabb_min: [0, 0, 0],
        aabb_max: [5, 1, 1],
    };
    let clusters = vec![
        MeshletCluster {
            vertices: vec![0, 1, 2],
            triangles: vec![0, 1, 2],
            center: [1.0f32.to_bits(), 0, 0],
            radius: 1.5f32.to_bits(),
            cone_axis: [0, 0, 0],
            cone_cutoff: 0,
        },
        MeshletCluster {
            vertices: vec![4, 3, 2],
            triangles: vec![2, 1, 0],
            center: [3.0f32.to_bits(), 0, 0],
            radius: 1.5f32.to_bits(),
            cone_axis: [0, 0, 0],
            cone_cutoff: 0,
        },
    ];
    let mesh = meshlet_mesh_from_clusters(&packed, &clusters);
    assert_eq!(mesh.meshlets.len(), 2);
    assert_eq!(mesh.vertices, vec![vertices[0], vertices[1], vertices[2], vertices[4], vertices[3], vertices[2]]);
    assert_eq!(mesh.triangles, vec![0, 1, 2, 2, 1, 0]);
    assert_eq!(mesh.meshlets[1].vertex_offset, 3);
    assert_eq!(mesh.meshlets[1].triangle_offset, 3);
    assert_eq!(mesh.meshlets[1].triangle_count, 1);
    assert_eq!(mesh.meshlets[1].center[0], 3.0f32.to_bits());
    assert_eq!(mesh.meshlets[0].parent_error, NO_PARENT_ERROR);
    assert_eq!(mesh.meshlets[0].parent_error, f32::MAX.to_bits());
    assert_eq!(mesh.flat_indices(), vec![0, 1, 2, 5, 4, 3]);
    assert_eq!(mesh.aabb_max, [5, 1, 1]);

    let empty = meshlet_mesh_from_clusters(&packed, &[]);
    assert!(empty.meshlets.is_empty() && empty.vertices.is_empty() && empty.triangles.is_empty());
}

#[test]
fn render_graph_keeps_passes_in_insertion_order() {
    let mut graph: RenderGraph<FramePass> = RenderGraph::new();
    assert_eq!(graph.pass_count(), 0);
    graph.add_pass(FramePass::Shadow(ShadowPass));
    graph.add_pass(FramePass::Cull(CullPass));
    graph.add_pass(FramePass::Egui(EguiPass));
    graph.compile();
    assert_eq!(graph.pass_count(), 3);
    assert_eq!(graph.pass_names(), vec!["shadow", "cull", "egui"]);
    let mut single: RenderGraph<EguiPass> = RenderGraph::new();
    single.add_pass(EguiPass);
    assert_eq!(single.pass_names(), vec!["egui"]);
}

#[test]
fn ssao_target_halves_and_recreates_on_size_change() {
    assert_eq!(ssao_extent(1921, 1080, true), [961, 540]);
    assert_eq!(ssao_extent(1921, 1080, false), [1921, 1080]);
    assert_eq!(ssao_extent(0, 0, true), [1, 1]);
    assert!(ssao_needs_recreate(None, [961, 540]));
    assert!(!ssao_needs_recreate(Some([961, 540]), [961, 540]));
    assert!(ssao_needs_recreate(Some([960, 540]), [961, 540]));
}

#[test]
fn queue_families_take_first_graphics_and_first_present() {
    let fam = |graphics: bool, present: bool| QueueFamilySupport { graphics, present };
    assert_eq!(find_queue_families(&[fam(false, true), fam(true, false), fam(true, true)]), Some((1, 0)));
    assert_eq!(find_queue_families(&[fam(true, true)]), Some((0, 0)));
    assert_eq!(find_queue_families(&[fam(true, false), fam(true, false)]), None);
    assert_eq!(find_queue_families(&[]), None);
}

#[test]
fn device_plan_dedups_queues_and_enables_mesh_shaders_when_complete() {
    let plan = device_setup_plan(2, 0, true, true, true);
    assert_eq!(plan.queue_families, vec![0, 2]);
    assert!(plan.mesh_shader_supported);
    assert_eq!(plan.extensions, vec![SWAPCHAIN_EXTENSION_NAME, MESH_SHADER_EXTENSION_NAME]);
    let plan = device_setup_plan(1, 1, true, true, false);
    assert_eq!(plan.queue_families, vec![1]);
    assert!(!plan.mesh_shader_supported);
    assert_eq!(plan.extensions, vec!["VK_KHR_swapchain"]);
}

#[test]
fn hiz_dispatches_halve_each_mip_down_to_one_texel() {
    let count = hiz_mip_count(100, 30);
    assert_eq!(count, 8);
    let d = hiz_mip_dispatches(100, 30, count);
    let extents: Vec<[u32; 2]> = d.iter().map(|m| m.extent).collect();
    assert_eq!(extents, vec![[100, 30], [50, 15], [25, 7], [12, 3], [6, 1], [3, 1], [1, 1], [1, 1]]);
    assert_eq!(d[0], HiZMipDispatch { extent: [100, 30], groups: [13, 4] });
    assert_eq!(d[1].groups, [7, 2]);
    assert_eq!(d[6].groups, [1, 1]);
    assert!(hiz_mip_dispatches(0, 0, 0).is_empty());
    assert_eq!(hiz_mip_dispatches(0, 0, 1)[0].extent, [1, 1]);
}

#[test]
fn hiz_sets_chain_depth_into_each_mip() {
    let sets = hiz_descriptor_sets(3);
    assert_eq!(
        sets,
        vec![
            HiZSetBinding { source: HiZSource::Depth, target_mip: 0 },
            HiZSetBinding { source: HiZSource::Mip(0), target_mip: 1 },
            HiZSetBinding { source: HiZSource::Mip(1), target_mip: 2 },
        ]
    );
    assert_eq!(hiz_descriptor_sets(0).len(), 1);
}

fn lod0(vertex_offset: u32, triangle_offset: u32) -> MeshletDescriptor {
    MeshletDescriptor {
        vertex_offset,
        triangle_offset,
        vertex_count: 3,
        triangle_count: 1,
        center: [0; 3],
        radius: 0,
        cone_axis: [0; 3],
        cone_cutoff: 0,
        lod_level: 0,
        group_id: 0,
        parent_error: NO_PARENT_ERROR,
    }
}

#[test]
fn lod_groups_merge_lock_shared_vertices_and_append_level_one() {
    let vertices: Vec<PackedVertex> = (0..6u32).map(|i| PackedVertex([i, 9])).collect();
    // meshlet 0 uses vertices 0, 1, 2; meshlet 1 uses 2, 3, 4; meshlet 2 uses 4 and 5.
    let mut mesh = MeshletMesh {
        meshlets: vec![lod0(0, 0), lod0(2, 3), lod0(4, 6)],
        vertices: vertices.clone(),
        triangles: vec![0, 1, 2, 0, 1, 2, 0, 1, 1],
        aabb_min: [0, 0, 0],
        aabb_max: [1, 1, 1],
    };
    let corners = mesh.group_global_indices(&[0, 1]);
    assert_eq!(corners, vec![0, 1, 2, 2, 3, 4]);
    let merged = merge_group(&corners, &mesh.vertices);
    assert_eq!(merged.globals, vec![0, 1, 2, 3, 4]);
    assert_eq!(merged.indices, vec![0, 1, 2, 2, 3, 4]);
    assert_eq!(merged.vertices, vec![vertices[0], vertices[1], vertices[2], vertices[3], vertices[4]]);
    let groups = vec![vec![0usize, 1], vec![2usize]];
    let locks = boundary_locks(&mesh, &groups, 0, &merged.globals);
    assert_eq!(locks, vec![false, false, false, false, true]);

    let cluster = MeshletCluster {
        vertices: vec![4, 0, 2],
        triangles: vec![0, 1, 2],
        center: [1, 2, 3],
        radius: 4,
        cone_axis: [0; 3],
        cone_cutoff: 0,
    };
    append_lod_clusters(&mut mesh, &merged.vertices, &[cluster], 1, 7, 42);
    assert_eq!(mesh.meshlets.len(), 4);
    let d = mesh.meshlets[3];
    assert_eq!((d.vertex_offset, d.triangle_offset, d.lod_level, d.group_id, d.parent_error), (6, 9, 1, 7, 42));
    assert_eq!(&mesh.vertices[6..], &[vertices[4], vertices[0], vertices[2]]);
    assert_eq!(&mesh.triangles[9..], &[0, 1, 2]);

    assert_eq!(lod_target_index_count(40), 10);
    assert_eq!(lod_target_index_count(6), 3);
    assert!(simplification_effective(100, 89));
    assert!(!simplification_effective(100, 90));
    assert!(!simplification_effective(100, 0));
}
