//! Bindings of the path-tracing bind group.

use vstd::prelude::*;

verus! {

pub const OUTPUT_VIEW: u32 = 0;
pub const ACCUMULATION: u32 = 1;
pub const CAMERA: u32 = 2;
pub const TRACER_UNIFORM: u32 = 3;
pub const VOXELS: u32 = 4;
pub const CHUNK_META: u32 = 5;
pub const CHUNK_MAP: u32 = 6;
pub const EMISSIVE_VOXELS: u32 = 7;
pub const DI_RESERVOIR_A: u32 = 8;
pub const DI_RESERVOIR_B: u32 = 9;
pub const PREVIOUS_CAMERA: u32 = 10;
pub const SURFACE_HISTORY: u32 = 11;
pub const EMISSIVE_CDF: u32 = 12;
pub const EMISSIVE_REMAP: u32 = 13;
pub const GI_RESERVOIR_A: u32 = 14;
pub const GI_RESERVOIR_B: u32 = 15;
pub const IMPORTANCE_MAP: u32 = 16;

/// Number of bindings in the layout.
pub const COUNT: usize = 17;

/// Bindings in layout order.
pub const ORDER: [u32; 17] = [OUTPUT_VIEW, ACCUMULATION, CAMERA, TRACER_UNIFORM, VOXELS, CHUNK_META, CHUNK_MAP, EMISSIVE_VOXELS, DI_RESERVOIR_A, DI_RESERVOIR_B, PREVIOUS_CAMERA, SURFACE_HISTORY, EMISSIVE_CDF, EMISSIVE_REMAP, GI_RESERVOIR_A, GI_RESERVOIR_B, IMPORTANCE_MAP];

} // verus!
