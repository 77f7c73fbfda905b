//! Matrices and transforms as bit patterns, and what can be done to them
//! without knowing what a float is.

use vstd::prelude::*;

verus! {

/// A 4x4 matrix of floats in columns, each float as its IEEE-754 bit pattern.
#[derive(Clone, Copy, Debug, PartialEq, Eq)]
pub struct Mat4 {
    pub x_axis: [u32; 4],
    pub y_axis: [u32; 4],
    pub z_axis: [u32; 4],
    pub w_axis: [u32; 4],
}

/// A 3x3 matrix of floats in columns, each float as its IEEE-754 bit pattern.
#[derive(Clone, Copy, Debug, PartialEq, Eq)]
pub struct Mat3 {
    pub x_axis: [u32; 3],
    pub y_axis: [u32; 3],
    pub z_axis: [u32; 3],
}

/// An affine transform as a 3x3 matrix and a translation, each float as its
/// IEEE-754 bit pattern.
#[derive(Clone, Copy, Debug, PartialEq, Eq)]
pub struct Affine3A {
    pub matrix3: Mat3,
    pub translation: [u32; 3],
}

/// An affine transform as a translation, a rotation quaternion and a scale,
/// each float as its IEEE-754 bit pattern.
#[derive(Clone, Copy, Debug, PartialEq, Eq)]
pub struct Transform {
    pub translation: [u32; 3],
    pub rotation: [u32; 4],
    pub scale: [u32; 3],
}

/// The first three components of four.
pub open spec fn spec_xyz(v: [u32; 4]) -> [u32; 3] {
    [v@[0], v@[1], v@[2]]
}

/// The matrix with the rows of `m` as its columns.
pub open spec fn spec_transpose(m: Mat4) -> Mat4 {
    Mat4 {
        x_axis: [m.x_axis@[0], m.y_axis@[0], m.z_axis@[0], m.w_axis@[0]],
        y_axis: [m.x_axis@[1], m.y_axis@[1], m.z_axis@[1], m.w_axis@[1]],
        z_axis: [m.x_axis@[2], m.y_axis@[2], m.z_axis@[2], m.w_axis@[2]],
        w_axis: [m.x_axis@[3], m.y_axis@[3], m.z_axis@[3], m.w_axis@[3]],
    }
}

/// The upper left 3x3 part of `m`.
pub open spec fn spec_upper_left(m: Mat4) -> Mat3 {
    Mat3 { x_axis: spec_xyz(m.x_axis), y_axis: spec_xyz(m.y_axis), z_axis: spec_xyz(m.z_axis) }
}

/// The matrix by which normals go under a transform whose inverse is
/// `inverse`: the upper left 3x3 part of the transpose of the inverse.
pub open spec fn spec_normal_matrix(inverse: Mat4) -> Mat3 {
    spec_upper_left(spec_transpose(inverse))
}

/// The first three components of four.
pub fn xyz(v: &[u32; 4]) -> (r: [u32; 3])
    ensures
        r == spec_xyz(*v),
{
    [v[0], v[1], v[2]]
}

impl Mat4 {
    /// The matrix with the rows of this one as its columns.
    pub fn transpose(&self) -> (r: Mat4)
        ensures
            r == spec_transpose(*self),
    {
        Mat4 {
            x_axis: [self.x_axis[0], self.y_axis[0], self.z_axis[0], self.w_axis[0]],
            y_axis: [self.x_axis[1], self.y_axis[1], self.z_axis[1], self.w_axis[1]],
            z_axis: [self.x_axis[2], self.y_axis[2], self.z_axis[2], self.w_axis[2]],
            w_axis: [self.x_axis[3], self.y_axis[3], self.z_axis[3], self.w_axis[3]],
        }
    }
}

/// The matrix by which normals go under a transform whose inverse is
/// `inverse`.
pub fn normal_matrix(inverse: &Mat4) -> (r: Mat3)
    ensures
        r == spec_normal_matrix(*inverse),
{
    let inverse_transpose = inverse.transpose();
    Mat3 {
        x_axis: xyz(&inverse_transpose.x_axis),
        y_axis: xyz(&inverse_transpose.y_axis),
        z_axis: xyz(&inverse_transpose.z_axis),
    }
}

} // verus!
