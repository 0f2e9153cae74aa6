//! Buffers of vertex data and of indices on the device, as far as the library
//! reads them: a name and a count.

use vstd::prelude::*;
use crate::context::Buffer;

verus! {

/// A buffer that holds one attribute of the vertices of a mesh.
#[derive(Clone, Copy, Debug, PartialEq, Eq, Structural)]
pub struct VertexBuffer {
    pub buffer: Buffer,
    /// The number of values in the buffer.
    pub count: usize,
}

impl VertexBuffer {
    /// The number of values in the buffer.
    pub fn count(&self) -> (count: usize)
        ensures
            count == self.count,
    {
        self.count
    }
}

/// A buffer that holds the indices of the vertices of each triangle.
#[derive(Clone, Copy, Debug, PartialEq, Eq, Structural)]
pub struct ElementBuffer {
    pub buffer: Buffer,
    /// The number of indices in the buffer.
    pub count: usize,
}

} // verus!
