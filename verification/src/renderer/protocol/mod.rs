//! Host/shader protocol shared with the compute shaders.

pub mod bindings;
