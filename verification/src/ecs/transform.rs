//! Where an entity stands in the scene.

use vstd::prelude::*;
use glam::{Mat4, Quat, Vec3};
use crate::vector::{placement_matrix, scale_rotation_translation};

verus! {

/// A placement: scale first, then rotation, then translation.
#[derive(Copy, Clone, Debug, PartialEq)]
pub struct Transform {
    pub translation: Vec3,
    pub rotation: Quat,
    pub scale: Vec3,
}

impl Transform {
    /// The placement as a matrix.
    pub open spec fn spec_to_mat4(self) -> Mat4 {
        placement_matrix(self.scale, self.rotation, self.translation)
    }

    pub fn to_mat4(&self) -> (matrix: Mat4)
        ensures
            matrix == self.spec_to_mat4(),
    {
        scale_rotation_translation(self.scale, self.rotation, self.translation)
    }
}

} // verus!
