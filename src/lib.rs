//! Frame orchestration for a small real-time renderer: which per-object
//! uniform slots must exist, when they are written, which bind groups are
//! created or reused, and in which order draw calls are issued.
//!
//! The library decides; the caller performs the GPU work that each
//! decision names and keeps the GPU objects that it creates.
pub mod input;
pub mod material;
pub mod mesh;
pub mod pass;
pub mod surface;
pub mod uniform_pool;
pub mod vertex;
