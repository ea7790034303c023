//! The vertex-pulling render core: GPU resource identities, the per-entity
//! buffer cache, the shared index buffer, pipeline lookup and the ordered
//! draw-command chain.

pub mod buffer_cache;
pub mod draw;
pub mod index_buffer;
pub mod pipeline;
pub mod render_resource;
