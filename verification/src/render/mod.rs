//! Debug geometry: batching, outlines and draw calls.

pub mod buffer;
pub mod color;
pub mod debug;
pub mod mesh;
pub mod outline;
