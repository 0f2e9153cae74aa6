//! Effects applied to each pixel.

use vstd::prelude::*;
use crate::context::Program;

verus! {

/// A fragment shader that is run once for each pixel of a viewport.
#[derive(Clone, Copy, Debug, PartialEq, Eq, Structural)]
pub struct ImageEffect {
    /// The name of the compiled effect on the device.
    pub program: Program,
}

} // verus!
