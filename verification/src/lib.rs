//! Core GPU resource bookkeeping for a vertex-pulling cuboid renderer.
//!
//! Geometry for millions of axis-aligned boxes is reconstructed in the vertex
//! shader from compact per-instance records, indexed by one shared index
//! buffer. This crate owns the bookkeeping that makes that sound: the
//! per-entity buffer cache, the shared index-buffer generator, and the ordered
//! render-command chain that binds resources and issues one indexed draw per
//! entity. The host engine's scheduling, asset handling and window management
//! stay outside; entities and GPU resources appear here as stable integer
//! identities.

pub mod component;
pub mod vertex_pulling;

pub use component::Cuboid;
pub use vertex_pulling::buffer_cache::BufferCache;
pub use vertex_pulling::index_buffer::CuboidsIndexBuffer;
