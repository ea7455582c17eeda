use revoxelation::renderer::bindless::{
    bindless_layout_bindings, bindless_pool_sizes, meshlet_buffer_bindings, mesh_stage_extra, DescriptorKind,
    BINDING_COUNT, BINDING_MATERIAL, BINDING_MESHLET_COUNT, BINDING_MESHLET_META, BINDING_SCENE,
    BINDING_SSAO_BLUR_INTERMEDIATE, BINDING_TEXTURE_ARRAY, STAGE_COMPUTE, STAGE_FRAGMENT, STAGE_MESH, STAGE_TASK,
    STAGE_VERTEX,
};

#[test]
fn bindless_bindings_are_numbered_in_order() {
    let bindings = bindless_layout_bindings(false);
    assert_eq!(bindings.len(), BINDING_COUNT);
    for (i, b) in bindings.iter().enumerate() {
        assert_eq!(b.binding as usize, i);
        assert_eq!(b.count, 1);
    }
    assert_eq!(bindings[BINDING_SSAO_BLUR_INTERMEDIATE as usize].kind, DescriptorKind::StorageImage);
    assert_eq!(bindings[BINDING_TEXTURE_ARRAY as usize].kind, DescriptorKind::CombinedImageSampler);
}

#[test]
fn mesh_shaders_add_task_and_mesh_stages() {
    assert_eq!(mesh_stage_extra(false), 0);
    assert_eq!(mesh_stage_extra(true), STAGE_TASK | STAGE_MESH);
    let plain = bindless_layout_bindings(false);
    let mesh = bindless_layout_bindings(true);
    assert_eq!(plain[BINDING_SCENE as usize].stages, STAGE_COMPUTE | STAGE_VERTEX);
    assert_eq!(mesh[BINDING_SCENE as usize].stages, STAGE_COMPUTE | STAGE_VERTEX | STAGE_TASK | STAGE_MESH);
    assert_eq!(mesh[BINDING_MATERIAL as usize].stages, STAGE_FRAGMENT | STAGE_TASK | STAGE_MESH);
    assert_eq!(mesh[BINDING_TEXTURE_ARRAY as usize].stages, STAGE_FRAGMENT);
    assert_eq!(mesh[BINDING_MESHLET_COUNT as usize].stages, STAGE_COMPUTE | STAGE_TASK | STAGE_MESH);
}

#[test]
fn pool_sizes_match_layout_kinds() {
    for mesh in [false, true] {
        let bindings = bindless_layout_bindings(mesh);
        for (kind, size) in bindless_pool_sizes() {
            let declared: u32 = bindings.iter().filter(|b| b.kind == kind).map(|b| b.count).sum();
            assert_eq!(declared, size);
        }
    }
    assert_eq!(bindless_pool_sizes()[0], (DescriptorKind::StorageBuffer, 17));
}

#[test]
fn meshlet_buffers_bind_consecutively() {
    let b = meshlet_buffer_bindings();
    assert_eq!(b[0], BINDING_MESHLET_META);
    assert_eq!(b, [10, 11, 12, 13, 14, 15]);
}
