use revoxelation::renderer::layouts::{
    svgf_bind_group_binding_order, svgf_bind_group_layout_entries, svgf_layout_binding_order,
    trace_bind_group_binding_order, trace_bind_group_layout_entries, trace_layout_binding_order, BindingKind,
};
use revoxelation::renderer::protocol::bindings::{svgf, trace};

/// Stand-in for the GPU texture format type the layouts are built with.
#[derive(Clone, Copy, Debug, PartialEq, Eq)]
enum TextureFormat {
    Rgba8Unorm,
}

#[test]
fn trace_layout_binding_order_matches_protocol_constants() {
    let actual = trace_bind_group_layout_entries(TextureFormat::Rgba8Unorm)
        .iter()
        .map(|entry| entry.binding)
        .collect::<Vec<_>>();
    assert_eq!(actual, trace_layout_binding_order().to_vec());
}

#[test]
fn svgf_layout_binding_order_matches_protocol_constants() {
    let actual = svgf_bind_group_layout_entries(TextureFormat::Rgba8Unorm)
        .iter()
        .map(|entry| entry.binding)
        .collect::<Vec<_>>();
    assert_eq!(actual, svgf_layout_binding_order().to_vec());
}

#[test]
fn layouts_write_the_output_texture_and_read_scene_data() {
    let trace_entries = trace_bind_group_layout_entries(TextureFormat::Rgba8Unorm);
    assert_eq!(trace_entries[0].kind, BindingKind::OutputTexture { format: TextureFormat::Rgba8Unorm });
    assert_eq!(trace_entries[trace::VOXELS as usize].kind, BindingKind::StorageBuffer { read_only: true });
    assert_eq!(trace_entries[trace::ACCUMULATION as usize].kind, BindingKind::StorageBuffer { read_only: false });
    assert_eq!(trace_entries[trace::CAMERA as usize].kind, BindingKind::UniformBuffer);
    assert_eq!(trace_entries[trace::IMPORTANCE_MAP as usize].kind, BindingKind::VolumeTexture);
    let svgf_entries = svgf_bind_group_layout_entries(7u32);
    assert_eq!(svgf_entries[0].kind, BindingKind::OutputTexture { format: 7u32 });
    assert_eq!(svgf_entries[svgf::ACCUMULATION as usize].kind, BindingKind::StorageBuffer { read_only: true });
    assert_eq!(svgf_entries[svgf::PING as usize].kind, BindingKind::StorageBuffer { read_only: false });
}

#[test]
fn trace_layout_binding_order_uses_protocol_count() {
    assert_eq!(trace_layout_binding_order().len(), trace::COUNT);
}

#[test]
fn svgf_layout_binding_order_uses_protocol_count() {
    assert_eq!(svgf_layout_binding_order().len(), svgf::COUNT);
}

#[test]
fn trace_layout_binding_order_matches_bind_group_builder_order() {
    assert_eq!(trace_layout_binding_order(), trace_bind_group_binding_order());
}

#[test]
fn svgf_layout_binding_order_matches_bind_group_builder_order() {
    assert_eq!(svgf_layout_binding_order(), svgf_bind_group_binding_order());
}

#[test]
fn layout_orders_list_each_binding_once() {
    let mut trace_order = trace_layout_binding_order().to_vec();
    trace_order.sort();
    trace_order.dedup();
    assert_eq!(trace_order.len(), trace::COUNT);
    assert_eq!(trace_layout_binding_order()[0], trace::OUTPUT_VIEW);
    assert_eq!(trace_layout_binding_order()[trace::COUNT - 1], trace::IMPORTANCE_MAP);
    let mut svgf_order = svgf_layout_binding_order().to_vec();
    svgf_order.sort();
    svgf_order.dedup();
    assert_eq!(svgf_order.len(), svgf::COUNT);
    assert_eq!(svgf_layout_binding_order()[svgf::COUNT - 1], svgf::DEBUG_DATA);
}
