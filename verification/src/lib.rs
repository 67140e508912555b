//! FlatEngine: a small 2D/3D scene library built around exact rational
//! geometry.
//!
//! Drawable entities (sprites, text, triangles, meshes) are positioned
//! through a node/transform model and rendered through resource-binding
//! renderers that track exactly which GPU-side resources are stale and
//! re-upload only those.  The GPU, window and font collaborators live
//! outside this crate; the library owns the geometry, the lifecycle
//! rules and the dirty-flag protocol.

pub mod scalar;
pub mod types;
pub mod node;
pub mod engine;
pub mod render;
pub mod geometry;
pub mod spatial;
pub mod text;
