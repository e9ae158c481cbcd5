//! Components that scene entities carry.

pub mod components;
pub mod entity;
pub mod light;
pub mod transform;
