//! Verified core of the revoxelation voxel engine: chunk addressing,
//! greedy meshing and vertex packing, mesh invalidation, GPU pool
//! bookkeeping, renderer lifecycle planning, frame planning and the
//! event loop's decisions.

pub mod chunk;
pub mod frame_loop;
pub mod material;
pub mod meshing;
pub mod renderer;
