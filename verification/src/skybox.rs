//! An illusion of a sky.

use vstd::prelude::*;
use crate::buffer::VertexBuffer;
use crate::camera::Camera;
use crate::context::Command;
use crate::context::Name;
use crate::context::Program;
use crate::context::Recording;
use crate::context::RecordingView;
use crate::context::Texture;
use crate::states::CullType;
use crate::states::DepthTestType;
use crate::states::RenderStates;
use crate::states::Viewport;
use crate::states::WriteMask;
use crate::texture::CPUTexture;
use crate::texture::TextureCubeMap;
use crate::texture::Wrapping;

verus! {

/// The number of vertices of the cube that the sky is drawn on.
pub const VERTEX_COUNT: u32 = 36;

/// An illusion of a sky.
#[derive(Debug, PartialEq, Eq)]
pub struct Skybox {
    /// The name of the program that draws the sky.
    pub program: Program,
    /// The positions of the vertices of the cube.
    pub vertex_buffer: VertexBuffer,
    /// The six faces of the sky.
    pub texture: TextureCubeMap,
}

impl Skybox {
    /// The state under which the sky is drawn: it is seen from inside, so
    /// front faces are thrown away, and it passes the depth test wherever
    /// nothing nearer has been drawn.
    pub open spec fn spec_render_states() -> RenderStates {
        RenderStates {
            write_mask: WriteMask::spec_color_and_depth(),
            depth_test: DepthTestType::LessOrEqual,
            cull: CullType::Front,
        }
    }

    /// What rendering the sky issues: the texture, the camera and the
    /// positions of the cube are handed to the program, and the cube is
    /// drawn.
    pub open spec fn spec_render(&self, viewport: Viewport, camera: Camera) -> Seq<Command> {
        seq![
            Command::UseTexture {
                program: self.program,
                texture: self.texture.texture,
                name: Name::Texture0,
            },
            Command::UseUniformBlock {
                program: self.program,
                buffer: camera.matrix_buffer,
                name: Name::Camera,
            },
            Command::UseAttributeVec3 {
                program: self.program,
                buffer: self.vertex_buffer.buffer,
                name: Name::Position,
            },
            Command::DrawArrays {
                program: self.program,
                render_states: Self::spec_render_states(),
                viewport,
                count: VERTEX_COUNT,
            },
        ]
    }

    /// A sky of the given texture in main memory. The texture is set to be
    /// clamped to its edge in all three directions and to have no smaller
    /// levels; it goes to the device under the given name. The program and
    /// the positions of the cube are on the device under theirs.
    pub fn new(
        cpu_texture: &mut CPUTexture<u8>,
        texture: Texture,
        program: Program,
        vertex_buffer: VertexBuffer,
    ) -> (skybox: Skybox)
        ensures
            *final(cpu_texture) == (CPUTexture {
                wrap_t: Wrapping::ClampToEdge,
                wrap_s: Wrapping::ClampToEdge,
                wrap_r: Wrapping::ClampToEdge,
                mip_map_filter: None,
                ..*old(cpu_texture)
            }),
            skybox == (Skybox { program, vertex_buffer, texture: TextureCubeMap { texture } }),
    {
        cpu_texture.wrap_t = Wrapping::ClampToEdge;
        cpu_texture.wrap_s = Wrapping::ClampToEdge;
        cpu_texture.wrap_r = Wrapping::ClampToEdge;
        cpu_texture.mip_map_filter = None;
        Self::new_with_texture(TextureCubeMap { texture }, program, vertex_buffer)
    }

    /// A sky of the given texture on the device.
    pub fn new_with_texture(
        texture: TextureCubeMap,
        program: Program,
        vertex_buffer: VertexBuffer,
    ) -> (skybox: Skybox)
        ensures
            skybox == (Skybox { program, vertex_buffer, texture }),
    {
        Skybox { program, vertex_buffer, texture }
    }

    /// Render the skybox. Must be called in a render target render function,
    /// for example in the closure of `Screen::write`.
    pub fn render(&self, viewport: Viewport, camera: &Camera) -> (recording: Recording)
        ensures
            recording@ == RecordingView::done(self.spec_render(viewport, *camera)),
    {
        let render_states = RenderStates {
            cull: CullType::Front,
            depth_test: DepthTestType::LessOrEqual,
            write_mask: WriteMask::default(),
        };
        let mut commands: Vec<Command> = Vec::new();
        commands.push(
            Command::UseTexture {
                program: self.program,
                texture: self.texture.texture,
                name: Name::Texture0,
            },
        );
        commands.push(
            Command::UseUniformBlock {
                program: self.program,
                buffer: camera.matrix_buffer(),
                name: Name::Camera,
            },
        );
        commands.push(
            Command::UseAttributeVec3 {
                program: self.program,
                buffer: self.vertex_buffer.buffer,
                name: Name::Position,
            },
        );
        commands.push(
            Command::DrawArrays {
                program: self.program,
                render_states,
                viewport,
                count: VERTEX_COUNT,
            },
        );
        assert(commands@ =~= self.spec_render(viewport, *camera));
        Recording::done(commands)
    }

    /// The six faces of the sky.
    pub fn get_texture(&self) -> (texture: &TextureCubeMap)
        ensures
            texture == &self.texture,
    {
        &self.texture
    }
}

} // verus!
