//! What a draw reads of the camera it is seen through.

use vstd::prelude::*;
use crate::context::Buffer;
use crate::math::Mat4;
use crate::math::Vec3;

verus! {

/// A camera, as far as drawing is concerned.
#[derive(Clone, Copy, Debug, PartialEq, Eq)]
pub struct Camera {
    /// The uniform buffer on the device that holds the camera's matrices.
    pub matrix_buffer: Buffer,
    /// Where the camera stands.
    pub position: Vec3,
    /// The inverse of the product of projection and view, where it exists.
    pub view_projection_inverse: Option<Mat4>,
}

impl Camera {
    /// The uniform buffer that holds the camera's matrices.
    pub fn matrix_buffer(&self) -> (buffer: Buffer)
        ensures
            buffer == self.matrix_buffer,
    {
        self.matrix_buffer
    }

    /// Where the camera stands.
    pub fn position(&self) -> (position: Vec3)
        ensures
            position == self.position,
    {
        self.position
    }
}

} // verus!
