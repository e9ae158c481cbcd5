//! Geometric types shared by the renderer and the scene.

use vstd::prelude::*;
use glam::Vec3;

verus! {

/// An axis-aligned box, by its least and greatest corner.
#[derive(Copy, Clone, Debug, PartialEq)]
pub struct AABB {
    pub min: Vec3,
    pub max: Vec3,
}

} // verus!
