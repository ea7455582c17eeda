//! What the renderer rebuilds after a world sync, a resize or a surface
//! reconfiguration, and in which order.

pub mod executor;
pub mod plan;
pub mod policy;
