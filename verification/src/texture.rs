//! Textures on the device, as far as the library reads them: a name and a
//! size.

use vstd::prelude::*;
use crate::context::Command;
use crate::context::Texture;

verus! {

/// How a texture is sampled between its texels.
#[derive(Clone, Copy, Debug, PartialEq, Eq, Structural)]
pub enum Interpolation {
    Nearest,
    Linear,
}

/// What a texture gives outside of the unit square.
#[derive(Clone, Copy, Debug, PartialEq, Eq, Structural)]
pub enum Wrapping {
    Repeat,
    MirroredRepeat,
    ClampToEdge,
}

/// The channels of a colour texture and their width.
#[derive(Clone, Copy, Debug, PartialEq, Eq, Structural)]
pub enum Format {
    R8,
    RGB8,
    RGBA8,
}

/// The width of a depth texture's values.
#[derive(Clone, Copy, Debug, PartialEq, Eq, Structural)]
pub enum DepthFormat {
    Depth16,
    Depth24,
    Depth32F,
}

/// A texture in main memory, with the way in which it is to be sampled once
/// it is on the device.
#[derive(Debug, PartialEq, Eq)]
pub struct CPUTexture<T> {
    pub data: Vec<T>,
    pub width: usize,
    pub height: usize,
    pub format: Format,
    pub min_filter: Interpolation,
    pub mag_filter: Interpolation,
    pub mip_map_filter: Option<Interpolation>,
    pub wrap_s: Wrapping,
    pub wrap_t: Wrapping,
    pub wrap_r: Wrapping,
}

/// A colour texture that can be rendered into.
#[derive(Debug, PartialEq, Eq)]
pub struct ColorTargetTexture2D {
    pub texture: Texture,
    pub width: usize,
    pub height: usize,
}

/// A depth texture that can be rendered into.
#[derive(Debug, PartialEq, Eq)]
pub struct DepthTargetTexture2D {
    pub texture: Texture,
    pub width: usize,
    pub height: usize,
}

/// A stack of colour textures of one size that can be rendered into.
#[derive(Debug, PartialEq, Eq)]
pub struct ColorTargetTexture2DArray {
    pub texture: Texture,
    pub width: usize,
    pub height: usize,
    pub depth: usize,
}

/// A stack of depth textures of one size that can be rendered into.
#[derive(Debug, PartialEq, Eq)]
pub struct DepthTargetTexture2DArray {
    pub texture: Texture,
    pub width: usize,
    pub height: usize,
    pub depth: usize,
}

/// A texture of six faces, one for each side of a cube.
#[derive(Debug, PartialEq, Eq)]
pub struct TextureCubeMap {
    pub texture: Texture,
}

impl DepthTargetTexture2D {
    /// The command that makes a depth texture of the given size under the
    /// given name.
    pub open spec fn spec_create(
        texture: Texture,
        width: usize,
        height: usize,
        wrap_s: Wrapping,
        wrap_t: Wrapping,
        format: DepthFormat,
    ) -> Command {
        Command::CreateDepthTargetTexture2D { texture, width, height, wrap_s, wrap_t, format }
    }

    /// Describes a depth texture of the given size under the given name, and
    /// gives the command that makes it on the device.
    pub fn new(
        texture: Texture,
        width: usize,
        height: usize,
        wrap_s: Wrapping,
        wrap_t: Wrapping,
        format: DepthFormat,
    ) -> (made: (DepthTargetTexture2D, Command))
        ensures
            made.0 == (DepthTargetTexture2D { texture, width, height }),
            made.1 == Self::spec_create(texture, width, height, wrap_s, wrap_t, format),
    {
        (
            DepthTargetTexture2D { texture, width, height },
            Command::CreateDepthTargetTexture2D { texture, width, height, wrap_s, wrap_t, format },
        )
    }

    /// The command that frees the texture on the device. The description is
    /// used up.
    pub fn delete(self) -> (command: Command)
        ensures
            command == (Command::DeleteTexture { texture: self.texture }),
    {
        Command::DeleteTexture { texture: self.texture }
    }
}

impl ColorTargetTexture2DArray {
    /// The command that makes a stack of `depth` colour textures of the
    /// given size under the given name.
    pub open spec fn spec_create(
        texture: Texture,
        width: usize,
        height: usize,
        depth: usize,
        min_filter: Interpolation,
        mag_filter: Interpolation,
        mip_map_filter: Option<Interpolation>,
        wrap_s: Wrapping,
        wrap_t: Wrapping,
        format: Format,
    ) -> Command {
        Command::CreateColorTargetTexture2DArray {
            texture,
            width,
            height,
            depth,
            min_filter,
            mag_filter,
            mip_map_filter,
            wrap_s,
            wrap_t,
            format,
        }
    }

    /// Describes a stack of `depth` colour textures of the given size under
    /// the given name, and gives the command that makes it on the device.
    pub fn new(
        texture: Texture,
        width: usize,
        height: usize,
        depth: usize,
        min_filter: Interpolation,
        mag_filter: Interpolation,
        mip_map_filter: Option<Interpolation>,
        wrap_s: Wrapping,
        wrap_t: Wrapping,
        format: Format,
    ) -> (made: (ColorTargetTexture2DArray, Command))
        ensures
            made.0 == (ColorTargetTexture2DArray { texture, width, height, depth }),
            made.1 == Self::spec_create(
                texture,
                width,
                height,
                depth,
                min_filter,
                mag_filter,
                mip_map_filter,
                wrap_s,
                wrap_t,
                format,
            ),
    {
        (
            ColorTargetTexture2DArray { texture, width, height, depth },
            Command::CreateColorTargetTexture2DArray {
                texture,
                width,
                height,
                depth,
                min_filter,
                mag_filter,
                mip_map_filter,
                wrap_s,
                wrap_t,
                format,
            },
        )
    }

    /// The command that frees the textures on the device. The description
    /// is used up.
    pub fn delete(self) -> (command: Command)
        ensures
            command == (Command::DeleteTexture { texture: self.texture }),
    {
        Command::DeleteTexture { texture: self.texture }
    }
}

impl DepthTargetTexture2DArray {
    /// The command that makes a stack of `depth` depth textures of the given
    /// size under the given name.
    pub open spec fn spec_create(
        texture: Texture,
        width: usize,
        height: usize,
        depth: usize,
        wrap_s: Wrapping,
        wrap_t: Wrapping,
        format: DepthFormat,
    ) -> Command {
        Command::CreateDepthTargetTexture2DArray {
            texture,
            width,
            height,
            depth,
            wrap_s,
            wrap_t,
            format,
        }
    }

    /// Describes a stack of `depth` depth textures of the given size under
    /// the given name, and gives the command that makes it on the device.
    pub fn new(
        texture: Texture,
        width: usize,
        height: usize,
        depth: usize,
        wrap_s: Wrapping,
        wrap_t: Wrapping,
        format: DepthFormat,
    ) -> (made: (DepthTargetTexture2DArray, Command))
        ensures
            made.0 == (DepthTargetTexture2DArray { texture, width, height, depth }),
            made.1 == Self::spec_create(texture, width, height, depth, wrap_s, wrap_t, format),
    {
        (
            DepthTargetTexture2DArray { texture, width, height, depth },
            Command::CreateDepthTargetTexture2DArray {
                texture,
                width,
                height,
                depth,
                wrap_s,
                wrap_t,
                format,
            },
        )
    }

    /// The width of each texture of the stack.
    pub fn width(&self) -> (width: usize)
        ensures
            width == self.width,
    {
        self.width
    }

    /// The height of each texture of the stack.
    pub fn height(&self) -> (height: usize)
        ensures
            height == self.height,
    {
        self.height
    }

    /// The command that frees the textures on the device. The description
    /// is used up.
    pub fn delete(self) -> (command: Command)
        ensures
            command == (Command::DeleteTexture { texture: self.texture }),
    {
        Command::DeleteTexture { texture: self.texture }
    }
}

} // verus!
