//! The fixed-function state that accompanies a draw, and the part of the
//! window that it draws to.

use vstd::prelude::*;

verus! {

/// Which channels a draw or a clear may write.
#[derive(Clone, Copy, Debug, PartialEq, Eq, Structural)]
pub struct WriteMask {
    pub red: bool,
    pub green: bool,
    pub blue: bool,
    pub alpha: bool,
    pub depth: bool,
}

impl WriteMask {
    /// All four colour channels and the depth.
    pub open spec fn spec_color_and_depth() -> WriteMask {
        WriteMask { red: true, green: true, blue: true, alpha: true, depth: true }
    }

    /// The four colour channels only.
    pub open spec fn spec_color() -> WriteMask {
        WriteMask { red: true, green: true, blue: true, alpha: true, depth: false }
    }

    /// The depth only.
    pub open spec fn spec_depth() -> WriteMask {
        WriteMask { red: false, green: false, blue: false, alpha: false, depth: true }
    }

    /// Nothing.
    pub open spec fn spec_none() -> WriteMask {
        WriteMask { red: false, green: false, blue: false, alpha: false, depth: false }
    }

    /// All four colour channels and the depth.
    #[verifier::when_used_as_spec(spec_color_and_depth)]
    pub fn color_and_depth() -> (mask: WriteMask)
        ensures
            mask == Self::spec_color_and_depth(),
    {
        WriteMask { red: true, green: true, blue: true, alpha: true, depth: true }
    }

    /// The four colour channels only.
    #[verifier::when_used_as_spec(spec_color)]
    pub fn color() -> (mask: WriteMask)
        ensures
            mask == Self::spec_color(),
    {
        WriteMask { red: true, green: true, blue: true, alpha: true, depth: false }
    }

    /// The depth only.
    #[verifier::when_used_as_spec(spec_depth)]
    pub fn depth() -> (mask: WriteMask)
        ensures
            mask == Self::spec_depth(),
    {
        WriteMask { red: false, green: false, blue: false, alpha: false, depth: true }
    }

    /// Nothing.
    #[verifier::when_used_as_spec(spec_none)]
    pub fn none() -> (mask: WriteMask)
        ensures
            mask == Self::spec_none(),
    {
        WriteMask { red: false, green: false, blue: false, alpha: false, depth: false }
    }
}

impl Default for WriteMask {
    /// Colour and depth are both written.
    fn default() -> (mask: WriteMask)
        ensures
            mask == WriteMask::spec_color_and_depth(),
    {
        WriteMask::color_and_depth()
    }
}

/// Which faces of a triangle are thrown away before it is drawn.
#[derive(Clone, Copy, Debug, PartialEq, Eq, Structural)]
pub enum CullType {
    Disabled,
    Back,
    Front,
    FrontAndBack,
}

/// How the depth of a fragment is compared with the depth already stored.
#[derive(Clone, Copy, Debug, PartialEq, Eq, Structural)]
pub enum DepthTestType {
    Never,
    Less,
    Equal,
    LessOrEqual,
    Greater,
    NotEqual,
    GreaterOrEqual,
    Always,
}

/// The state under which a draw is made.
#[derive(Clone, Copy, Debug, PartialEq, Eq, Structural)]
pub struct RenderStates {
    pub write_mask: WriteMask,
    pub depth_test: DepthTestType,
    pub cull: CullType,
}

impl RenderStates {
    /// The state of a draw that asks for nothing special: colour and depth
    /// are written, nearer fragments win, no face is thrown away.
    pub open spec fn spec_default() -> RenderStates {
        RenderStates {
            write_mask: WriteMask::spec_color_and_depth(),
            depth_test: DepthTestType::Less,
            cull: CullType::Disabled,
        }
    }
}

impl Default for RenderStates {
    fn default() -> (states: RenderStates)
        ensures
            states == RenderStates::spec_default(),
    {
        RenderStates {
            write_mask: WriteMask::color_and_depth(),
            depth_test: DepthTestType::Less,
            cull: CullType::Disabled,
        }
    }
}

/// A rectangle of pixels of the window or of a texture.
#[derive(Clone, Copy, Debug, PartialEq, Eq, Structural)]
pub struct Viewport {
    pub x: i32,
    pub y: i32,
    pub width: usize,
    pub height: usize,
}

impl Viewport {
    /// The rectangle of the given size whose corner is the origin.
    pub fn new_at_origo(width: usize, height: usize) -> (viewport: Viewport)
        ensures
            viewport == (Viewport { x: 0, y: 0, width, height }),
    {
        Viewport { x: 0, y: 0, width, height }
    }
}

} // verus!
