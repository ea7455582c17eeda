//! Renderer-side decisions and bookkeeping: lifecycle planning, frame
//! planning, diagnostics, and the chunk and meshlet pool allocators.

pub mod lifecycle;
pub mod diagnostics;
pub mod frame;
pub mod chunk_pool;
pub mod meshlet_pool;
pub mod graph;
pub mod passes;
pub mod hiz;
pub mod instance;
pub mod light_sampler;
pub mod protocol;
pub mod layouts;
pub mod lighting;
pub mod camera;
pub mod shaders;
pub mod device;
pub mod hot_reload;
pub mod bindless;
pub mod world_ops;

pub use chunk_pool::RenderDelta;
