//! Binding numbers of the trace and SVGF bind group layouts.

pub mod svgf;
pub mod trace;
