//! Vectors and rotations, as `glam` defines them.
//!
//! The library carries these values and hands them to `glam` for arithmetic;
//! it never looks inside one. What `glam` computes from them has a name here,
//! so that contracts can say which value a shape was given.

use vstd::prelude::*;
use glam::{Mat4, Quat, Vec3, Vec4};
use crate::scalar::Scalar;

verus! {

#[verifier::external_type_specification]
#[verifier::external_body]
pub struct ExVec3(Vec3);

#[verifier::external_type_specification]
#[verifier::external_body]
pub struct ExVec4(Vec4);

#[verifier::external_type_specification]
#[verifier::external_body]
pub struct ExQuat(Quat);

#[verifier::external_type_specification]
#[verifier::external_body]
pub struct ExMat4(Mat4);

/// The sum of two vectors, component by component.
pub uninterp spec fn vec3_sum(a: Vec3, b: Vec3) -> Vec3;

/// The difference of two vectors, component by component.
pub uninterp spec fn vec3_difference(a: Vec3, b: Vec3) -> Vec3;

/// The product of two vectors, component by component.
pub uninterp spec fn vec3_product(a: Vec3, b: Vec3) -> Vec3;

/// The vector as the rotation turns it.
pub uninterp spec fn rotated(rotation: Quat, v: Vec3) -> Vec3;

/// The unit vector along axis 0 (x), 1 (y) or 2 (z).
pub uninterp spec fn unit_axis(axis: usize) -> Vec3;

/// The point in homogeneous coordinates: the vector with a fourth component
/// of one.
pub uninterp spec fn homogeneous(v: Vec3) -> Vec4;

/// The matrix that scales, then rotates, then translates.
pub uninterp spec fn placement_matrix(scale: Vec3, rotation: Quat, translation: Vec3) -> Mat4;

/// The bit pattern of the distance between two points.
pub uninterp spec fn distance_bits(a: Vec4, b: Vec4) -> u32;

/// `glam`'s `Add` for `Vec3`: adds component by component, each sum rounded
/// once. The result is named `vec3_sum`.
#[verifier::external_body]
pub(crate) fn vec3_add(a: Vec3, b: Vec3) -> (sum: Vec3)
    ensures
        sum == vec3_sum(a, b),
{
    a + b
}

/// `glam`'s `Sub` for `Vec3`: subtracts component by component, each
/// difference rounded once. The result is named `vec3_difference`.
#[verifier::external_body]
pub(crate) fn vec3_sub(a: Vec3, b: Vec3) -> (difference: Vec3)
    ensures
        difference == vec3_difference(a, b),
{
    a - b
}

/// `glam`'s `Mul` for `Vec3`: multiplies component by component, each product
/// rounded once. The result is named `vec3_product`.
#[verifier::external_body]
pub(crate) fn vec3_mul(a: Vec3, b: Vec3) -> (product: Vec3)
    ensures
        product == vec3_product(a, b),
{
    a * b
}

/// `glam`'s `Mul<Vec3>` for `Quat`: the vector turned by the rotation. The
/// result is named `rotated`. Built with its assertions on, `glam` panics
/// here on a rotation that is not of unit length; the library builds it
/// without them.
#[verifier::external_body]
pub(crate) fn quat_rotate(rotation: Quat, v: Vec3) -> (turned: Vec3)
    ensures
        turned == rotated(rotation, v),
{
    rotation * v
}

/// `glam`'s `Vec3::AXES`: the three unit vectors, x first. The result is
/// named `unit_axis`. An index of 3 or more would be out of bounds.
#[verifier::external_body]
pub(crate) fn axis(index: usize) -> (unit: Vec3)
    requires
        index < 3,
    ensures
        unit == unit_axis(index),
{
    Vec3::AXES[index]
}

/// `glam`'s `Vec3::to_homogeneous`: keeps the three components and appends a
/// fourth of one. The result is named `homogeneous`.
#[verifier::external_body]
pub(crate) fn to_homogeneous(v: Vec3) -> (point: Vec4)
    ensures
        point == homogeneous(v),
{
    v.to_homogeneous()
}

/// `glam`'s `Mat4::from_scale_rotation_translation`: the matrix of a scale
/// followed by a rotation and a translation. The result is named
/// `placement_matrix`. Built with its assertions on, `glam` panics here on a
/// rotation that is not of unit length; the library builds it without them.
#[verifier::external_body]
pub(crate) fn scale_rotation_translation(scale: Vec3, rotation: Quat, translation: Vec3) -> (matrix:
    Mat4)
    ensures
        matrix == placement_matrix(scale, rotation, translation),
{
    Mat4::from_scale_rotation_translation(scale, rotation, translation)
}

/// `glam`'s `Vec4::distance`: the length of the difference of two vectors,
/// handed out as a bit pattern. The pattern is named `distance_bits`; of its
/// value nothing is claimed.
#[verifier::external_body]
pub(crate) fn distance(a: &Vec4, b: &Vec4) -> (length: Scalar)
    ensures
        length.bits == distance_bits(*a, *b),
{
    Scalar { bits: a.distance(*b).to_bits() }
}

} // verus!
