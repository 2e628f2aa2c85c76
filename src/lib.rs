//! GPU resource mirroring primitives: a stable-slot pool, device buffers
//! updated through staging copies, CPU/GPU resource pairs, texture update
//! decisions, bind-group layout matching and window event routing.
pub mod index_container;
pub mod buffer;
pub mod mirror;
pub mod pipeline;
pub mod shading;
pub mod texture;
pub mod event;
