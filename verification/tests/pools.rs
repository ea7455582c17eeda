use revoxelation::chunk::ChunkKey;
use revoxelation::meshing::packing::{MeshletDescriptor, MeshletMesh, PackedMesh, PackedVertex};
use revoxelation::renderer::chunk_pool::{
    index_slot_stride_bytes, index_slot_stride_indices, scene_buffer_region_offsets, vertex_slot_stride_bytes,
    vertex_slot_stride_vertices, BufferCopy, ChunkPool, ChunkPoolError, DenseIndirectWrite, DrawIndexedIndirectCommand,
    DrawSlotWrite, PreparedDelta, RenderDelta, SlotAllocator, INITIAL_CAPACITY, MAX_QUADS_PER_CHUNK,
};
use revoxelation::renderer::meshlet_pool::{MeshletGrowCopies, MeshletPool, MeshletPoolError, INITIAL_MESHLET_CAPACITY};

fn test_meshlet_pool(meshlet_capacity: usize, vertex_capacity: usize, tri_capacity: usize) -> MeshletPool {
    MeshletPool::with_capacities(meshlet_capacity, vertex_capacity, tri_capacity)
}

fn mesh_with(vertices: usize, indices: Vec<u32>) -> PackedMesh {
    PackedMesh {
        vertices: (0..vertices as u32).map(|i| PackedVertex([i, 0x0102_0304])).collect(),
        indices,
        quad_count: 0,
        aabb_min: [0, 1, 2],
        aabb_max: [3, 4, 5],
    }
}

#[test]
fn chunk_pool_meshlet_reserve_append_does_not_overlap_live_tail_after_non_tail_remove() {
    let mut pool = test_meshlet_pool(64, 64, 64);
    let a = pool.reserve_range(ChunkKey::new(0, 0, 0, 0), 10, 10, 10).unwrap();
    let b = pool.reserve_range(ChunkKey::new(1, 0, 0, 0), 10, 10, 10).unwrap();

    pool.record_remove(ChunkKey::new(0, 0, 0, 0));

    let c = pool.reserve_range(ChunkKey::new(2, 0, 0, 0), 15, 15, 15).unwrap();
    assert_eq!(a.meshlet_start, 0);
    assert_eq!(b.meshlet_start, 10);
    assert_eq!(c.meshlet_start, 20);
    assert!(c.meshlet_start >= b.meshlet_start + b.meshlet_count);
    assert_eq!(c.vertex_start, 20);
    assert_eq!(c.tri_start, 20);
}

#[test]
fn chunk_pool_meshlet_reserve_errors_when_append_exceeds_capacity() {
    let mut pool = test_meshlet_pool(20, 20, 20);
    pool.reserve_range(ChunkKey::new(0, 0, 0, 0), 10, 10, 10).unwrap();
    pool.reserve_range(ChunkKey::new(1, 0, 0, 0), 10, 10, 10).unwrap();
    pool.record_remove(ChunkKey::new(0, 0, 0, 0));

    let err = pool.reserve_range(ChunkKey::new(2, 0, 0, 0), 15, 15, 15).unwrap_err();
    assert!(err.message().contains("meshlet pool exhausted"));
}

#[test]
fn meshlet_pool_meshlet_reserve_append_does_not_overlap_live_tail_after_non_tail_remove() {
    let mut pool = test_meshlet_pool(64, 64, 64);
    let a = pool.reserve_range(ChunkKey::new(0, 0, 0, 0), 10, 10, 10).unwrap();
    let b = pool.reserve_range(ChunkKey::new(1, 0, 0, 0), 10, 10, 10).unwrap();

    pool.record_remove(ChunkKey::new(0, 0, 0, 0));

    let c = pool.reserve_range(ChunkKey::new(2, 0, 0, 0), 15, 15, 15).unwrap();
    assert_eq!(a.meshlet_start, 0);
    assert_eq!(b.meshlet_start, 10);
    assert_eq!(c.meshlet_start, 20);
    assert!(c.meshlet_start >= b.meshlet_start + b.meshlet_count);
    assert_eq!(c.vertex_start, 20);
    assert_eq!(c.tri_start, 20);
}

#[test]
fn meshlet_pool_meshlet_reserve_errors_when_append_exceeds_capacity() {
    let mut pool = test_meshlet_pool(20, 20, 20);
    pool.reserve_range(ChunkKey::new(0, 0, 0, 0), 10, 10, 10).unwrap();
    pool.reserve_range(ChunkKey::new(1, 0, 0, 0), 10, 10, 10).unwrap();
    pool.record_remove(ChunkKey::new(0, 0, 0, 0));

    let err = pool.reserve_range(ChunkKey::new(2, 0, 0, 0), 15, 15, 15).unwrap_err();
    assert!(err.message().contains("meshlet pool exhausted"));
}

#[test]
fn meshlet_reserve_reuses_first_fitting_free_range() {
    let mut pool = test_meshlet_pool(64, 64, 64);
    pool.reserve_range(ChunkKey::new(0, 0, 0, 0), 10, 10, 10).unwrap();
    pool.reserve_range(ChunkKey::new(1, 0, 0, 0), 4, 4, 4).unwrap();
    pool.reserve_range(ChunkKey::new(2, 0, 0, 0), 6, 6, 6).unwrap();
    pool.record_remove(ChunkKey::new(0, 0, 0, 0));
    pool.record_remove(ChunkKey::new(2, 0, 0, 0));
    let d = pool.reserve_range(ChunkKey::new(3, 0, 0, 0), 5, 5, 5).unwrap();
    assert_eq!((d.meshlet_start, d.meshlet_count), (0, 5));
    assert_eq!(pool.chunk_range(ChunkKey::new(3, 0, 0, 0)), Some((0, 5)));
    assert_eq!(pool.chunk_range(ChunkKey::new(0, 0, 0, 0)), None);
    assert_eq!(pool.active_meshlet_count(), 9);
}

#[test]
fn meshlet_reserve_for_resident_chunk_releases_its_old_range_first() {
    let mut pool = test_meshlet_pool(64, 64, 64);
    pool.reserve_range(ChunkKey::new(0, 0, 0, 0), 10, 10, 10).unwrap();
    let again = pool.reserve_range(ChunkKey::new(0, 0, 0, 0), 8, 8, 8).unwrap();
    assert_eq!(again.meshlet_start, 0);
    assert_eq!(pool.active_meshlet_count(), 8);
}

#[test]
fn meshlet_append_overflow_is_reported() {
    let mut pool = test_meshlet_pool(64, 64, 64);
    pool.reserve_range(ChunkKey::new(0, 0, 0, 0), 1, 1, 1).unwrap();
    let err = pool.reserve_range(ChunkKey::new(1, 0, 0, 0), u32::MAX, 0, 0).unwrap_err();
    assert_eq!(err, MeshletPoolError::AppendOverflow);
    assert!(err.message().contains("exceeds capacity"));
}

#[test]
fn meshlet_pool_grows_past_ninety_percent_of_capacity() {
    let mut pool = test_meshlet_pool(100, 1000, 1000);
    pool.reserve_range(ChunkKey::new(0, 0, 0, 0), 90, 10, 10).unwrap();
    assert!(!pool.needs_grow());
    pool.reserve_range(ChunkKey::new(1, 0, 0, 0), 1, 1, 1).unwrap();
    assert!(pool.needs_grow());
    pool.grow_capacity();
    assert_eq!(pool.meshlet_capacity(), 200);
    assert!(!pool.needs_grow());
    assert_eq!(MeshletPool::new().meshlet_capacity(), INITIAL_MESHLET_CAPACITY);
}

fn descriptor(vertex_offset: u32, triangle_offset: u32, triangle_count: u32) -> MeshletDescriptor {
    MeshletDescriptor {
        vertex_offset,
        triangle_offset,
        vertex_count: 3,
        triangle_count,
        center: [1, 2, 3],
        radius: 4,
        cone_axis: [5, 6, 7],
        cone_cutoff: 8,
        lod_level: 1,
        group_id: 9,
        parent_error: 10,
    }
}

#[test]
fn meshlet_upload_offsets_metadata_and_lists_shadow_draws() {
    let mut pool = test_meshlet_pool(16, 64, 64);
    pool.reserve_range(ChunkKey::new(9, 0, 0, 0), 2, 5, 7).unwrap();
    let mesh = MeshletMesh {
        meshlets: vec![descriptor(0, 0, 1), descriptor(3, 3, 0)],
        vertices: (0..6).map(|i| PackedVertex([i, 0])).collect(),
        triangles: vec![0, 1, 2, 0, 1, 2],
        aabb_min: [0, 0, 0],
        aabb_max: [1, 1, 1],
    };
    let upload = pool.prepare_upload(ChunkKey::new(1, 0, 0, 0), &mesh, 42).unwrap();
    assert_eq!(upload.range.meshlet_start, 2);
    assert_eq!(upload.range.vertex_start, 5);
    assert_eq!(upload.range.tri_start, 7);
    assert_eq!(upload.triangles, vec![0u32, 1, 2, 0, 1, 2]);
    assert_eq!(upload.meshlets[1].vertex_offset, 8);
    assert_eq!(upload.meshlets[1].triangle_offset, 10);
    assert_eq!(upload.meshlets[0].chunk_slot, 42);
    assert_eq!(upload.meshlets[0].lod_level, 1);
    let draws = pool.prepare_shadow_draws();
    assert_eq!(draws.visible, vec![2u32]);
    assert_eq!(
        draws.commands,
        vec![DrawIndexedIndirectCommand { index_count: 3, instance_count: 1, first_index: 7, vertex_offset: 5, first_instance: 0 }]
    );
    pool.record_remove(ChunkKey::new(1, 0, 0, 0));
    assert!(pool.prepare_shadow_draws().visible.is_empty());
}

#[test]
fn shadow_draws_are_listed_in_increasing_meshlet_order() {
    let mut pool = test_meshlet_pool(32, 64, 64);
    let mesh = MeshletMesh {
        meshlets: vec![descriptor(0, 0, 1), descriptor(0, 0, 1)],
        vertices: (0..3).map(|i| PackedVertex([i, 0])).collect(),
        triangles: vec![0, 1, 2],
        aabb_min: [0, 0, 0],
        aabb_max: [1, 1, 1],
    };
    for x in 0..4 {
        pool.prepare_upload(ChunkKey::new(x, 0, 0, 0), &mesh, x as u32).unwrap();
    }
    pool.record_remove(ChunkKey::new(1, 0, 0, 0));
    pool.prepare_upload(ChunkKey::new(7, 0, 0, 0), &mesh, 7).unwrap();
    let draws = pool.prepare_shadow_draws();
    assert_eq!(draws.visible, vec![0u32, 1, 2, 3, 4, 5, 6, 7]);
}

#[test]
fn slot_strides_match_quad_budget() {
    assert_eq!(vertex_slot_stride_vertices(), MAX_QUADS_PER_CHUNK * 4);
    assert_eq!(index_slot_stride_indices(), MAX_QUADS_PER_CHUNK * 6);
    assert_eq!(vertex_slot_stride_bytes(), 131072);
    assert_eq!(index_slot_stride_bytes(), 98304);
}

#[test]
fn scene_buffer_regions_are_aligned_and_ordered() {
    assert_eq!(scene_buffer_region_offsets(1), (0, 64, 96, 112, 132));
    assert_eq!(scene_buffer_region_offsets(3), (0, 192, 256, 272, 332));
    let (inst, indirect, slot, dense, total) = scene_buffer_region_offsets(INITIAL_CAPACITY);
    assert_eq!(inst, 0);
    assert_eq!(indirect, 65536);
    assert_eq!(slot, 65536 + 20480);
    assert_eq!(dense, 65536 + 20480 + 4096);
    assert_eq!(total, dense + 20480);
    assert_eq!(scene_buffer_region_offsets(0), (0, 0, 0, 0, 0));
}

#[test]
fn slot_allocator_hands_out_lowest_free_slot_and_reuses_freed_slots() {
    let mut slots = SlotAllocator::with_capacity(4);
    let a = ChunkKey::new(0, 0, 0, 0);
    let b = ChunkKey::new(1, 0, 0, 0);
    let up_a = slots.prepare_upload(a, &mesh_with(2, vec![0, 1, 0])).unwrap();
    let up_b = slots.prepare_upload(b, &mesh_with(1, vec![0])).unwrap();
    assert_eq!(up_a.slot_id, 0);
    assert_eq!(up_b.slot_id, 1);
    assert_eq!(up_a.draw_slot_write, Some(DrawSlotWrite { draw_index: 0, slot_id: 0 }));
    assert_eq!(up_b.draw_slot_write, Some(DrawSlotWrite { draw_index: 1, slot_id: 1 }));
    assert_eq!(
        up_b.indirect,
        DrawIndexedIndirectCommand {
            index_count: 1,
            instance_count: 1,
            first_index: 24576,
            vertex_offset: 16384,
            first_instance: 1,
        }
    );
    assert_eq!(up_b.vertex_offset_bytes, 131072);
    assert_eq!(up_b.index_offset_bytes, 98304);
    assert_eq!(up_b.instance.aabb_max, [3, 4, 5]);
    assert_eq!(slots.active_chunk_count(), 2);
    assert_eq!(slots.prepare_remove(a), Some(0));
    assert_eq!(slots.draw_slots_shadow(), &[1u32][..]);
    assert_eq!(slots.draw_index_for_slot(1), Some(0));
    assert_eq!(slots.slot_for(a), None);
    let again = slots.prepare_upload(ChunkKey::new(2, 0, 0, 0), &mesh_with(0, vec![])).unwrap();
    assert_eq!(again.slot_id, 0);
    assert_eq!(again.dense_indirect_write.draw_index, 1);
}

#[test]
fn slot_allocator_reupload_keeps_slot_and_draw_index() {
    let mut slots = SlotAllocator::with_capacity(2);
    let a = ChunkKey::new(5, -3, 2, 1);
    slots.prepare_upload(a, &mesh_with(1, vec![0])).unwrap();
    let again = slots.prepare_upload(a, &mesh_with(3, vec![0, 1, 2, 2])).unwrap();
    assert_eq!(again.slot_id, 0);
    assert_eq!(again.draw_slot_write, None);
    assert_eq!(again.dense_indirect_write.draw_index, 0);
    assert_eq!(again.indirect.index_count, 4);
    assert_eq!(slots.active_draw_count(), 1);
}

#[test]
fn slot_allocator_reports_exhaustion() {
    let mut slots = SlotAllocator::with_capacity(1);
    slots.prepare_upload(ChunkKey::new(0, 0, 0, 0), &mesh_with(0, vec![])).unwrap();
    let err = match slots.prepare_upload(ChunkKey::new(1, 0, 0, 0), &mesh_with(0, vec![])) {
        Ok(_) => panic!("expected exhaustion"),
        Err(e) => e,
    };
    assert_eq!(err, ChunkPoolError::Exhausted { capacity: 1 });
    assert!(err.message().contains("chunk pool exhausted"));
    assert!(slots.grow(1).is_err());
    assert!(slots.grow(3).is_ok());
    assert_eq!(slots.capacity(), 3);
    let up = slots.prepare_upload(ChunkKey::new(1, 0, 0, 0), &mesh_with(0, vec![])).unwrap();
    assert_eq!(up.slot_id, 1);
}

#[test]
fn upload_bytes_hold_each_word_in_native_order() {
    let mut slots = SlotAllocator::with_capacity(1);
    let mesh = mesh_with(2, vec![7, 0x0A0B_0C0D]);
    let up = slots.prepare_upload(ChunkKey::new(0, 0, 0, 0), &mesh).unwrap();
    assert_eq!(up.index_bytes, [7u32.to_ne_bytes(), 0x0A0B_0C0Du32.to_ne_bytes()].concat());
    assert_eq!(up.vertex_bytes.len(), 16);
    assert_eq!(up.vertex_bytes[4..8].to_vec(), 0x0102_0304u32.to_ne_bytes().to_vec());
}

#[test]
fn chunk_pool_remove_moves_last_draw_into_freed_index() {
    let mut pool = ChunkPool::new();
    let keys = [ChunkKey::new(0, 0, 0, 0), ChunkKey::new(1, 0, 0, 0), ChunkKey::new(2, 0, 0, 0)];
    for (i, key) in keys.iter().enumerate() {
        pool.prepare_upload(*key, &mesh_with(1, vec![0; i + 1])).unwrap();
    }
    let removed = pool.prepare_remove(keys[0]).unwrap();
    assert_eq!(removed.slot_id, 0);
    assert_eq!(
        removed.draw_slot_writes,
        vec![DrawSlotWrite { draw_index: 0, slot_id: 2 }, DrawSlotWrite { draw_index: 2, slot_id: 0 }]
    );
    assert_eq!(removed.dense_indirect_writes[0].command.index_count, 3);
    assert_eq!(removed.dense_indirect_writes[1], DenseIndirectWrite { draw_index: 2, command: DrawIndexedIndirectCommand::default() });
    assert_eq!(pool.active_draw_count(), 2);
    let last = pool.prepare_remove(keys[1]).unwrap();
    assert_eq!(last.draw_slot_writes, vec![DrawSlotWrite { draw_index: 1, slot_id: 0 }]);
    assert!(pool.prepare_remove(keys[1]).is_none());
    assert_eq!(pool.active_chunk_count(), 1);
}

#[test]
fn chunk_pool_grows_when_more_than_ninety_percent_full() {
    let mut pool = ChunkPool::new();
    assert_eq!(pool.capacity(), INITIAL_CAPACITY);
    for x in 0..921 {
        pool.prepare_upload(ChunkKey::new(x, 0, 0, 0), &mesh_with(0, vec![])).unwrap();
    }
    assert!(!pool.needs_grow());
    pool.prepare_upload(ChunkKey::new(921, 0, 0, 0), &mesh_with(0, vec![])).unwrap();
    assert!(pool.needs_grow());
    let copies = pool.grow_capacity();
    assert_eq!(copies.new_capacity, 2 * INITIAL_CAPACITY);
    let (oi, ot, os, od, _) = scene_buffer_region_offsets(INITIAL_CAPACITY);
    let (ni, nt, ns, nd, _) = scene_buffer_region_offsets(2 * INITIAL_CAPACITY);
    assert_eq!(copies.instances, BufferCopy { src_offset: oi, dst_offset: ni, size: 64 * 1024 });
    assert_eq!(copies.indirect_templates, BufferCopy { src_offset: ot, dst_offset: nt, size: 20 * 1024 });
    assert_eq!(copies.draw_slots, BufferCopy { src_offset: os, dst_offset: ns, size: 4 * 1024 });
    assert_eq!(copies.dense_indirect, BufferCopy { src_offset: od, dst_offset: nd, size: 20 * 1024 });
    assert_ne!(copies.dense_indirect.src_offset, copies.dense_indirect.dst_offset);
    assert_eq!(copies.vertices.size, 131072 * 1024);
    assert_eq!(copies.indices.size, 98304 * 1024);
    assert_eq!(pool.slot_allocator().draw_index_for_slot(0), Some(0));
    assert_eq!(pool.scene_buffer_capacity(), 2 * INITIAL_CAPACITY);
    assert!(!pool.needs_grow());
    let (_, _, _, dense, _) = scene_buffer_region_offsets(2 * INITIAL_CAPACITY);
    assert_eq!(pool.dense_indirect_region_offset(), dense);
    let up = pool.prepare_upload(ChunkKey::new(5000, 0, 0, 0), &mesh_with(0, vec![])).unwrap();
    assert_eq!(up.slot_id, INITIAL_CAPACITY as u32);
    pool.record_dense_indirect_write(DenseIndirectWrite { draw_index: 0, command: up.indirect });
}

#[test]
fn queued_deltas_upload_flattened_meshes_and_free_slots() {
    let mut pool = ChunkPool::new();
    let key = ChunkKey::new(3, 1, 4, 0);
    let mesh = MeshletMesh {
        meshlets: vec![descriptor(0, 0, 1), descriptor(2, 3, 1)],
        vertices: (0..5).map(|i| PackedVertex([i, 7])).collect(),
        triangles: vec![0, 1, 2, 2, 1, 0],
        aabb_min: [1, 2, 3],
        aabb_max: [4, 5, 6],
    };
    let upsert = RenderDelta::Upsert { key, mesh };
    let up = match pool.prepare_delta(&upsert) {
        Ok(PreparedDelta::Upload(up)) => up,
        _ => panic!("upsert must upload"),
    };
    assert_eq!(up.slot_id, 0);
    assert_eq!(up.indirect.index_count, 6);
    assert_eq!(up.instance.aabb_min, [1, 2, 3]);
    let words: Vec<u32> = up.index_bytes.chunks(4).map(|b| u32::from_ne_bytes([b[0], b[1], b[2], b[3]])).collect();
    assert_eq!(words, vec![0, 1, 2, 4, 3, 2]);
    assert_eq!(up.vertex_bytes.len(), 5 * 8);

    let remove = RenderDelta::Remove { key };
    match pool.prepare_delta(&remove) {
        Ok(PreparedDelta::Remove(rm)) => assert_eq!(rm.slot_id, 0),
        _ => panic!("resident chunk must be removed"),
    }
    assert!(matches!(pool.prepare_delta(&remove), Ok(PreparedDelta::NotResident)));
    assert_eq!(pool.active_chunk_count(), 0);
}

#[test]
fn meshlet_growth_follows_active_counts_and_copies_up_to_tails() {
    let mut pool = test_meshlet_pool(20, 20, 20);
    let (k0, k1) = (ChunkKey::new(0, 0, 0, 0), ChunkKey::new(1, 0, 0, 0));
    pool.reserve_range(k0, 10, 10, 10).unwrap();
    pool.reserve_range(k1, 10, 10, 10).unwrap();
    assert!(pool.needs_grow());
    pool.record_remove(k0);
    assert_eq!(pool.active_meshlet_count(), 10);
    assert!(!pool.needs_grow());
    assert_eq!(pool.append_tails(), [20, 20, 20]);
    let copies = pool.grow_capacity();
    assert_eq!(
        copies,
        MeshletGrowCopies { meta: 20, vertices: 20, triangles: 20, visible: 20, indirect: 20, count: 1 }
    );
    assert_eq!(pool.meshlet_capacity(), 40);
    assert_eq!(pool.chunk_range(k1), Some((10, 10)));
    assert_eq!(pool.active_meshlet_count(), 10);
}

fn small_meshlet_mesh() -> MeshletMesh {
    MeshletMesh {
        meshlets: vec![descriptor(0, 0, 1)],
        vertices: (0..3).map(|i| PackedVertex([i, 1])).collect(),
        triangles: vec![0, 1, 2],
        aabb_min: [0, 0, 0],
        aabb_max: [1, 1, 1],
    }
}

#[test]
fn pending_deltas_stop_at_an_exhausted_pool_and_stay_queued() {
    let mut pool = ChunkPool::new();
    for x in 0..INITIAL_CAPACITY as i32 {
        pool.prepare_upload(ChunkKey::new(x, 0, 0, 0), &mesh_with(0, vec![])).unwrap();
    }
    let newcomer = ChunkKey::new(-1, 0, 0, 0);
    let mut pending = std::collections::VecDeque::new();
    pending.push_back(RenderDelta::Upsert { key: newcomer, mesh: small_meshlet_mesh() });
    pending.push_back(RenderDelta::Remove { key: ChunkKey::new(0, 0, 0, 0) });
    let done = pool.prepare_pending(&mut pending);
    assert!(done.is_empty());
    assert_eq!(pending.len(), 2);
    assert!(matches!(pending[0], RenderDelta::Upsert { .. }));

    pending.rotate_left(1);
    let done = pool.prepare_pending(&mut pending);
    assert_eq!(done.len(), 2);
    assert!(pending.is_empty());
    match &done[0].1 {
        PreparedDelta::Remove(rm) => assert_eq!(rm.slot_id, 0),
        _ => panic!("removal expected first"),
    }
    match &done[1].1 {
        PreparedDelta::Upload(up) => {
            assert_eq!(up.slot_id, 0);
            assert_eq!(up.indirect.index_count, 3);
        }
        _ => panic!("upload expected second"),
    }
    assert!(matches!(done[1].0, RenderDelta::Upsert { key, .. } if key == newcomer));
}
