//! The rendering core of a 3D scene viewer: which shadow maps to refresh in a
//! frame and in what order, and the batching and drawing of debug geometry.
//!
//! The library decides; it never touches a graphics device. What it hands
//! back are plain descriptions (commands, draw calls, buffer contents) that
//! the caller carries out.

pub mod ecs;
pub mod render;
pub mod renderer;
pub mod scalar;
pub mod tag;
pub mod types;
pub mod vector;
