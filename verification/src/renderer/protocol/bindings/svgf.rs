//! Bindings of the SVGF denoiser bind groups.

use vstd::prelude::*;

verus! {

pub const OUTPUT_VIEW: u32 = 0;
pub const ACCUMULATION: u32 = 1;
pub const TRACER_UNIFORM: u32 = 2;
pub const SURFACE_HISTORY: u32 = 3;
pub const UNIFORM: u32 = 4;
pub const PING: u32 = 5;
pub const PONG: u32 = 6;
pub const CAMERA: u32 = 7;
pub const PREVIOUS_CAMERA: u32 = 8;
pub const DEBUG_DATA: u32 = 9;

/// Number of bindings in the layout.
pub const COUNT: usize = 10;

/// Bindings in layout order.
pub const ORDER: [u32; 10] = [OUTPUT_VIEW, ACCUMULATION, TRACER_UNIFORM, SURFACE_HISTORY, UNIFORM, PING, PONG, CAMERA, PREVIOUS_CAMERA, DEBUG_DATA];

} // verus!
