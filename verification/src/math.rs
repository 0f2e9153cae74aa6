//! Vectors and matrices as the device reads them: one 32-bit pattern per
//! component. The library moves these values around and never computes with
//! them.

use vstd::prelude::*;

verus! {

/// The 32-bit pattern of the number zero.
pub const ZERO: u32 = 0x0000_0000;

/// The 32-bit pattern of the number one.
pub const ONE: u32 = 0x3F80_0000;

/// The 32-bit pattern of the number minus one.
pub const MINUS_ONE: u32 = 0xBF80_0000;

/// A vector of three components.
#[derive(Clone, Copy, Debug, PartialEq, Eq, Structural)]
pub struct Vec3 {
    pub x: u32,
    pub y: u32,
    pub z: u32,
}

/// A vector of four components.
#[derive(Clone, Copy, Debug, PartialEq, Eq, Structural)]
pub struct Vec4 {
    pub x: u32,
    pub y: u32,
    pub z: u32,
    pub w: u32,
}

/// A four by four matrix, held as its four columns.
#[derive(Clone, Copy, Debug, PartialEq, Eq, Structural)]
pub struct Mat4 {
    pub x: Vec4,
    pub y: Vec4,
    pub z: Vec4,
    pub w: Vec4,
}

/// A transformation of space, as far as drawing is concerned.
#[derive(Clone, Copy, Debug, PartialEq, Eq)]
pub struct Transformation {
    /// The matrix of the transformation.
    pub matrix: Mat4,
    /// The transpose of the inverse of the matrix, where the matrix can be
    /// inverted. Normals are transformed by it.
    pub normal_matrix: Option<Mat4>,
}

/// The vector with the given components.
pub fn vec3(x: u32, y: u32, z: u32) -> (v: Vec3)
    ensures
        v == (Vec3 { x, y, z }),
{
    Vec3 { x, y, z }
}

/// The vector with the given components.
pub fn vec4(x: u32, y: u32, z: u32, w: u32) -> (v: Vec4)
    ensures
        v == (Vec4 { x, y, z, w }),
{
    Vec4 { x, y, z, w }
}

} // verus!
