use three_d::context::Command;
use three_d::context::Texture;
use three_d::texture::ColorTargetTexture2DArray;
use three_d::texture::DepthFormat;
use three_d::texture::DepthTargetTexture2D;
use three_d::texture::DepthTargetTexture2DArray;
use three_d::texture::Format;
use three_d::texture::Interpolation;
use three_d::texture::Wrapping;

#[test]
fn a_depth_texture_is_described_and_made() {
    let (texture, command) = DepthTargetTexture2D::new(
        Texture { id: 1 },
        8,
        4,
        Wrapping::Repeat,
        Wrapping::ClampToEdge,
        DepthFormat::Depth24,
    );
    assert_eq!(texture, DepthTargetTexture2D { texture: Texture { id: 1 }, width: 8, height: 4 });
    assert_eq!(
        command,
        Command::CreateDepthTargetTexture2D {
            texture: Texture { id: 1 },
            width: 8,
            height: 4,
            wrap_s: Wrapping::Repeat,
            wrap_t: Wrapping::ClampToEdge,
            format: DepthFormat::Depth24,
        }
    );
    assert_eq!(texture.delete(), Command::DeleteTexture { texture: Texture { id: 1 } });
}

#[test]
fn a_stack_of_colour_textures_is_described_and_made() {
    let (texture, command) = ColorTargetTexture2DArray::new(
        Texture { id: 2 },
        8,
        4,
        3,
        Interpolation::Linear,
        Interpolation::Nearest,
        Some(Interpolation::Linear),
        Wrapping::MirroredRepeat,
        Wrapping::Repeat,
        Format::RGB8,
    );
    assert_eq!(
        texture,
        ColorTargetTexture2DArray { texture: Texture { id: 2 }, width: 8, height: 4, depth: 3 }
    );
    assert_eq!(
        command,
        Command::CreateColorTargetTexture2DArray {
            texture: Texture { id: 2 },
            width: 8,
            height: 4,
            depth: 3,
            min_filter: Interpolation::Linear,
            mag_filter: Interpolation::Nearest,
            mip_map_filter: Some(Interpolation::Linear),
            wrap_s: Wrapping::MirroredRepeat,
            wrap_t: Wrapping::Repeat,
            format: Format::RGB8,
        }
    );
    assert_eq!(texture.delete(), Command::DeleteTexture { texture: Texture { id: 2 } });
}

#[test]
fn a_stack_of_depth_textures_is_described_and_made() {
    let (texture, command) = DepthTargetTexture2DArray::new(
        Texture { id: 3 },
        8,
        4,
        2,
        Wrapping::ClampToEdge,
        Wrapping::ClampToEdge,
        DepthFormat::Depth16,
    );
    assert_eq!(texture.width(), 8);
    assert_eq!(texture.height(), 4);
    assert_eq!(
        texture,
        DepthTargetTexture2DArray { texture: Texture { id: 3 }, width: 8, height: 4, depth: 2 }
    );
    assert_eq!(
        command,
        Command::CreateDepthTargetTexture2DArray {
            texture: Texture { id: 3 },
            width: 8,
            height: 4,
            depth: 2,
            wrap_s: Wrapping::ClampToEdge,
            wrap_t: Wrapping::ClampToEdge,
            format: DepthFormat::Depth16,
        }
    );
    assert_eq!(texture.delete(), Command::DeleteTexture { texture: Texture { id: 3 } });
}
