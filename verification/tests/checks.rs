use revoxelation::chunk::ChunkKey;
use revoxelation::meshing::packing::{
    builds_lod, check_clusters_fit, check_group_corners, check_lod_clusters_fit, group_simplifiable, has_geometry,
    MeshletCluster, MeshletDescriptor, MeshletMesh, PackedMesh, PackedVertex, LOD_GROUP_SIZE,
};
use revoxelation::renderer::chunk_pool::{check_delta_fits, RenderDelta};
use revoxelation::renderer::meshlet_pool::check_upload_fits;

fn meshlet(vertex_offset: u32, triangle_offset: u32, triangle_count: u32) -> MeshletDescriptor {
    MeshletDescriptor {
        vertex_offset,
        triangle_offset,
        vertex_count: 3,
        triangle_count,
        center: [0, 0, 0],
        radius: 0,
        cone_axis: [0, 0, 0],
        cone_cutoff: 0,
        lod_level: 0,
        group_id: 0,
        parent_error: 0,
    }
}

fn mesh_of(meshlets: Vec<MeshletDescriptor>, vertex_count: u32, triangles: Vec<u8>) -> MeshletMesh {
    MeshletMesh {
        meshlets,
        vertices: (0..vertex_count).map(|i| PackedVertex([i, 0])).collect(),
        triangles,
        aabb_min: [0, 0, 0],
        aabb_max: [1, 1, 1],
    }
}

fn cluster(vertices: Vec<u32>, triangles: Vec<u8>) -> MeshletCluster {
    MeshletCluster { vertices, triangles, center: [0, 0, 0], radius: 0, cone_axis: [0, 0, 0], cone_cutoff: 0 }
}

fn vertices(n: u32) -> Vec<PackedVertex> {
    (0..n).map(|i| PackedVertex([i, 7])).collect()
}

#[test]
fn in_bounds_checks_triangle_span_and_global_indices() {
    let ok = mesh_of(vec![meshlet(0, 0, 1), meshlet(3, 3, 1)], 6, vec![0, 1, 2, 2, 1, 0]);
    assert!(ok.check_in_bounds());
    let past_end = mesh_of(vec![meshlet(0, 3, 1)], 3, vec![0, 1, 2, 0, 1]);
    assert!(!past_end.check_in_bounds());
    let wide = mesh_of(vec![meshlet(u32::MAX - 1, 0, 1)], 3, vec![0, 1, 2]);
    assert!(!wide.check_in_bounds());
    let edge = mesh_of(vec![meshlet(u32::MAX - 2, 0, 1)], 3, vec![0, 1, 2]);
    assert!(edge.check_in_bounds());
    assert!(mesh_of(vec![], 0, vec![]).check_in_bounds());
}

#[test]
fn upload_fit_checks_vertex_offsets_and_triangle_spans() {
    assert!(check_upload_fits(&mesh_of(vec![meshlet(3, 3, 1)], 6, vec![0, 1, 2, 0, 1, 2])));
    assert!(check_upload_fits(&mesh_of(vec![meshlet(6, 6, 0)], 6, vec![0, 1, 2, 0, 1, 2])));
    assert!(!check_upload_fits(&mesh_of(vec![meshlet(7, 0, 1)], 6, vec![0, 1, 2])));
    assert!(!check_upload_fits(&mesh_of(vec![meshlet(0, 1, 1)], 6, vec![0, 1, 2])));
}

#[test]
fn cluster_fit_checks_every_vertex_index() {
    let vs = vertices(5);
    assert!(check_clusters_fit(&vs, &[cluster(vec![0, 1, 4], vec![0, 1, 2])]));
    assert!(!check_clusters_fit(&vs, &[cluster(vec![0, 1, 2], vec![0, 1, 2]), cluster(vec![5], vec![0, 0, 0])]));
    assert!(check_clusters_fit(&vs, &[]));
}

#[test]
fn lod_cluster_fit_adds_the_mesh_totals() {
    let source = vertices(3);
    let clusters = vec![cluster(vec![0, 1, 2], vec![0, 1, 2])];
    let mut mesh = mesh_of(vec![], 4, vec![0, 1, 2]);
    assert!(check_lod_clusters_fit(&mesh, &source, &clusters));
    assert!(!check_lod_clusters_fit(&mesh, &source, &[cluster(vec![3], vec![0, 0, 0])]));
    mesh.meshlets.push(meshlet(0, 0, 1));
    assert!(check_lod_clusters_fit(&mesh, &source, &clusters));
}

#[test]
fn group_corners_must_name_mesh_vertices() {
    let vs = vertices(4);
    assert!(check_group_corners(&[0, 3, 2, 3], &vs));
    assert!(!check_group_corners(&[0, 4], &vs));
    assert!(check_group_corners(&[], &vs));
}

#[test]
fn queued_delta_fit_checks_upserts_only() {
    let key = ChunkKey::new(0, 0, 0, 0);
    let good = mesh_of(vec![meshlet(0, 0, 1)], 3, vec![0, 1, 2]);
    let bad = mesh_of(vec![meshlet(0, 0, 2)], 3, vec![0, 1, 2]);
    assert!(check_delta_fits(&RenderDelta::Upsert { key, mesh: good }));
    assert!(!check_delta_fits(&RenderDelta::Upsert { key, mesh: bad }));
    assert!(check_delta_fits(&RenderDelta::Remove { key }));
}

#[test]
fn clustering_gates() {
    let empty = PackedMesh { vertices: vec![], indices: vec![], quad_count: 0, aabb_min: [0; 3], aabb_max: [0; 3] };
    assert!(!has_geometry(&empty));
    let no_indices = PackedMesh { vertices: vertices(3), indices: vec![], quad_count: 0, aabb_min: [0; 3], aabb_max: [0; 3] };
    assert!(!has_geometry(&no_indices));
    let some = PackedMesh { vertices: vertices(3), indices: vec![0, 1, 2], quad_count: 1, aabb_min: [0; 3], aabb_max: [1; 3] };
    assert!(has_geometry(&some));
    assert_eq!(LOD_GROUP_SIZE, 4);
    assert!(!builds_lod(3));
    assert!(builds_lod(4));
    assert!(!group_simplifiable(1));
    assert!(group_simplifiable(2));
}
