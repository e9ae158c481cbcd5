//! Per-frame scheduling of render work.

pub mod schedule;
pub mod shadows;
