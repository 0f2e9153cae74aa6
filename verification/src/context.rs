//! The commands that the library hands to a graphics device, and the names
//! by which they refer to what lives there.

use vstd::prelude::*;
use crate::context::consts::DRAW_FRAMEBUFFER;
use crate::error::Error;
use crate::error::ErrorView;
use crate::light::AmbientLight;
use crate::light::DirectionalLight;
use crate::light::PointLight;
use crate::light::SpotLight;
use crate::math::Mat4;
use crate::math::Vec3;
use crate::math::Vec4;
use crate::states::RenderStates;
use crate::states::Viewport;
use crate::states::WriteMask;
use crate::texture::DepthFormat;
use crate::texture::Format;
use crate::texture::Interpolation;
use crate::texture::Wrapping;

pub mod consts;

verus! {

/// The name of a framebuffer on the device.
#[derive(Clone, Copy, Debug, PartialEq, Eq, Structural)]
pub struct Framebuffer {
    pub id: u32,
}

/// The name of a texture on the device.
#[derive(Clone, Copy, Debug, PartialEq, Eq, Structural)]
pub struct Texture {
    pub id: u32,
}

/// The name of a buffer of vertex data, of indices or of uniforms on the
/// device.
#[derive(Clone, Copy, Debug, PartialEq, Eq, Structural)]
pub struct Buffer {
    pub id: u32,
}

/// The name of a linked shader program on the device.
#[derive(Clone, Copy, Debug, PartialEq, Eq, Structural)]
pub struct Program {
    pub id: u32,
}

/// The identifiers by which the shaders of this library name their inputs.
#[derive(Clone, Copy, Debug, PartialEq, Eq, Structural)]
pub enum Name {
    ColorMap,
    DepthMap,
    ColorLayer,
    DepthLayer,
    ModelMatrix,
    NormalMatrix,
    Camera,
    Position,
    UvCoordinates,
    Normal,
    Color,
    Tex,
    Texture0,
    Gbuffer,
    Type,
    ViewProjectionInverse,
    EyePosition,
}

impl Name {
    /// The identifier as it is written in shader source.
    pub open spec fn text(self) -> Seq<char> {
        match self {
            Name::ColorMap => "colorMap"@,
            Name::DepthMap => "depthMap"@,
            Name::ColorLayer => "colorLayer"@,
            Name::DepthLayer => "depthLayer"@,
            Name::ModelMatrix => "modelMatrix"@,
            Name::NormalMatrix => "normalMatrix"@,
            Name::Camera => "Camera"@,
            Name::Position => "position"@,
            Name::UvCoordinates => "uv_coordinates"@,
            Name::Normal => "normal"@,
            Name::Color => "color"@,
            Name::Tex => "tex"@,
            Name::Texture0 => "texture0"@,
            Name::Gbuffer => "gbuffer"@,
            Name::Type => "type"@,
            Name::ViewProjectionInverse => "viewProjectionInverse"@,
            Name::EyePosition => "eyePosition"@,
        }
    }

    /// The identifier as it is written in shader source.
    pub fn as_str(&self) -> (text: &'static str)
        ensures
            text@ == self.text(),
    {
        match self {
            Name::ColorMap => "colorMap",
            Name::DepthMap => "depthMap",
            Name::ColorLayer => "colorLayer",
            Name::DepthLayer => "depthLayer",
            Name::ModelMatrix => "modelMatrix",
            Name::NormalMatrix => "normalMatrix",
            Name::Camera => "Camera",
            Name::Position => "position",
            Name::UvCoordinates => "uv_coordinates",
            Name::Normal => "normal",
            Name::Color => "color",
            Name::Tex => "tex",
            Name::Texture0 => "texture0",
            Name::Gbuffer => "gbuffer",
            Name::Type => "type",
            Name::ViewProjectionInverse => "viewProjectionInverse",
            Name::EyePosition => "eyePosition",
        }
    }
}

/// The fragment shader that an image effect is compiled from.
#[derive(Clone, Copy, Debug, PartialEq, Eq, Structural)]
pub enum EffectSource {
    /// Copies a colour and a depth texture to the target that is written to.
    Copy,
    /// Copies a layer of a stack of colour textures and a layer of a stack
    /// of depth textures to the target that is written to.
    CopyArray,
    /// Shows one of the buffers that the geometry pass has filled.
    Debug,
    /// Shades the buffers of the geometry pass under the given number of
    /// directional, spot and point lights.
    Phong { directional_lights: usize, spot_lights: usize, point_lights: usize },
}

/// The fragment shader that one of the programs that all meshes share is
/// linked from.
#[derive(Clone, Copy, Debug, PartialEq, Eq, Structural)]
pub enum MeshShader {
    /// Writes depth only.
    Depth,
    /// Shows the mesh in one colour.
    Color,
    /// Shows the mesh with a texture.
    Texture,
    /// Shows the mesh with the colours of its vertices.
    PerVertexColor,
}

/// One call on the graphics device.
#[allow(inconsistent_fields)]
#[derive(Clone, Copy, Debug, PartialEq, Eq)]
pub enum Command {
    /// Makes the framebuffer, or the screen for `None`, the one that the
    /// given target reads from or draws to.
    BindFramebuffer { target: u32, framebuffer: Option<Framebuffer> },
    /// Frees the framebuffer.
    DeleteFramebuffer { framebuffer: Framebuffer },
    /// Declares the first `count` colour attachments of the bound
    /// framebuffer as the ones that fragment outputs go to.
    DrawBuffers { count: usize },
    /// Sets which channels may be written.
    SetWriteMask { mask: WriteMask },
    /// Sets the colour that a clear fills with.
    ClearColor { red: u32, green: u32, blue: u32, alpha: u32 },
    /// Sets the depth that a clear fills with.
    ClearDepth { depth: u32 },
    /// Fills the buffers that the mask names.
    Clear { mask: u32 },
    /// Reads a rectangle of pixels of the bound read framebuffer.
    ReadPixels { x: u32, y: u32, width: u32, height: u32, format: u32, data_type: u32 },
    /// Makes a stack of colour textures.
    CreateColorTargetTexture2DArray {
        texture: Texture,
        width: usize,
        height: usize,
        depth: usize,
        min_filter: Interpolation,
        mag_filter: Interpolation,
        mip_map_filter: Option<Interpolation>,
        wrap_s: Wrapping,
        wrap_t: Wrapping,
        format: Format,
    },
    /// Makes a stack of depth textures.
    CreateDepthTargetTexture2DArray {
        texture: Texture,
        width: usize,
        height: usize,
        depth: usize,
        wrap_s: Wrapping,
        wrap_t: Wrapping,
        format: DepthFormat,
    },
    /// Makes a depth texture.
    CreateDepthTargetTexture2D {
        texture: Texture,
        width: usize,
        height: usize,
        wrap_s: Wrapping,
        wrap_t: Wrapping,
        format: DepthFormat,
    },
    /// Frees the texture.
    DeleteTexture { texture: Texture },
    /// Fills in the smaller levels of the texture.
    GenerateMipMaps { texture: Texture },
    /// Attaches the texture to the bound framebuffer as the colour target
    /// of the given channel.
    BindAsColorTarget { texture: Texture, channel: usize },
    /// Attaches one layer of the stack to the bound framebuffer as the
    /// colour target of the given channel.
    BindLayerAsColorTarget { texture: Texture, layer: usize, channel: usize },
    /// Attaches the texture to the bound framebuffer as its depth target.
    BindAsDepthTarget { texture: Texture },
    /// Attaches one layer of the stack to the bound framebuffer as its depth
    /// target.
    BindLayerAsDepthTarget { texture: Texture, layer: usize },
    /// Frees the buffer.
    DeleteBuffer { buffer: Buffer },
    /// Links one of the programs that all meshes share, under the given
    /// name.
    CreateMeshProgram { program: Program, shader: MeshShader },
    /// Frees the program.
    DeleteProgram { program: Program },
    /// Compiles an image effect under the given name.
    CreateImageEffect { effect: Program, source: EffectSource },
    /// Hands the texture to the program under the given identifier.
    UseTexture { program: Program, texture: Texture, name: Name },
    /// Sets an integer uniform.
    UseUniformInt { program: Program, name: Name, value: i32 },
    /// Sets a uniform of three components.
    UseUniformVec3 { program: Program, name: Name, value: Vec3 },
    /// Sets a uniform of four components.
    UseUniformVec4 { program: Program, name: Name, value: Vec4 },
    /// Sets a matrix uniform.
    UseUniformMat4 { program: Program, name: Name, value: Mat4 },
    /// Hands the uniform buffer to the program under the given identifier.
    UseUniformBlock { program: Program, buffer: Buffer, name: Name },
    /// Reads the vertex attribute of two components from the buffer.
    UseAttributeVec2 { program: Program, buffer: Buffer, name: Name },
    /// Reads the vertex attribute of three components from the buffer.
    UseAttributeVec3 { program: Program, buffer: Buffer, name: Name },
    /// Reads the vertex attribute of four components from the buffer.
    UseAttributeVec4 { program: Program, buffer: Buffer, name: Name },
    /// Hands the ambient light of the pass, or its absence, to the effect.
    BindAmbientLight { effect: Program, light: Option<AmbientLight> },
    /// Hands a directional light to the effect as the one of the given
    /// place.
    BindDirectionalLight { effect: Program, light: DirectionalLight, index: usize },
    /// Hands a spot light to the effect as the one of the given place.
    BindSpotLight { effect: Program, light: SpotLight, index: usize },
    /// Hands a point light to the effect as the one of the given place.
    BindPointLight { effect: Program, light: PointLight, index: usize },
    /// Draws `count` triangles from the attributes in use.
    DrawArrays { program: Program, render_states: RenderStates, viewport: Viewport, count: u32 },
    /// Draws the triangles that the index buffer lists.
    DrawElements {
        program: Program,
        render_states: RenderStates,
        viewport: Viewport,
        element_buffer: Buffer,
    },
    /// Runs the effect's fragment shader once for each pixel of the viewport.
    Apply { effect: Program, render_states: RenderStates, viewport: Viewport },
}

/// What an operation hands to the device: the commands in the order in which
/// they are issued, and how the operation ended. After an error no further
/// command is issued.
#[derive(Debug, PartialEq, Eq)]
pub struct Recording {
    pub commands: Vec<Command>,
    pub result: Result<(), Error>,
}

/// A recording as mathematics: the sequence of commands, and the error that
/// ended it, if one did.
pub struct RecordingView {
    pub commands: Seq<Command>,
    pub failure: Option<ErrorView>,
}

impl RecordingView {
    /// The recording of an operation that issues the given commands and
    /// succeeds.
    pub open spec fn done(commands: Seq<Command>) -> RecordingView {
        RecordingView { commands, failure: None }
    }

    /// The recording of an operation that issues the given commands and then
    /// stops with the given error.
    pub open spec fn failed(commands: Seq<Command>, error: ErrorView) -> RecordingView {
        RecordingView { commands, failure: Some(error) }
    }

    /// This recording followed by another: where this one ended in an error,
    /// nothing of the other is issued.
    pub open spec fn followed_by(self, next: RecordingView) -> RecordingView {
        if self.failure is Some {
            self
        } else {
            RecordingView { commands: self.commands + next.commands, failure: next.failure }
        }
    }
}

impl View for Recording {
    type V = RecordingView;

    open spec fn view(&self) -> RecordingView {
        RecordingView {
            commands: self.commands@,
            failure: match self.result {
                Ok(_) => None,
                Err(error) => Some(error@),
            },
        }
    }
}

impl Recording {
    /// The recording of an operation that has issued nothing yet.
    pub fn new() -> (recording: Recording)
        ensures
            recording@ == RecordingView::done(Seq::empty()),
    {
        Recording { commands: Vec::new(), result: Ok(()) }
    }

    /// The recording of an operation that issues the given commands and
    /// succeeds.
    pub fn done(commands: Vec<Command>) -> (recording: Recording)
        ensures
            recording@ == RecordingView::done(commands@),
    {
        Recording { commands, result: Ok(()) }
    }

    /// The recording of an operation that issues nothing and stops with the
    /// given error.
    pub fn failed(error: Error) -> (recording: Recording)
        ensures
            recording@ == RecordingView::failed(Seq::empty(), error@),
    {
        Recording { commands: Vec::new(), result: Err(error) }
    }

    /// Whether the operation came to its end.
    pub fn is_ok(&self) -> (ok: bool)
        ensures
            ok == (self@.failure is None),
    {
        self.result.is_ok()
    }

    /// This recording followed by another: where this one ended in an error,
    /// nothing of the other is issued.
    pub fn followed_by(self, next: Recording) -> (recording: Recording)
        ensures
            recording@ == self@.followed_by(next@),
    {
        if self.result.is_err() {
            self
        } else {
            let mut commands = self.commands;
            let mut more = next.commands;
            commands.append(&mut more);
            Recording { commands, result: next.result }
        }
    }
}

/// Putting recordings one after another does not depend on how they are
/// grouped.
pub proof fn lemma_followed_by_is_associative(
    first: RecordingView,
    second: RecordingView,
    third: RecordingView,
)
    ensures
        first.followed_by(second).followed_by(third) == first.followed_by(
            second.followed_by(third),
        ),
{
    let left = first.followed_by(second).followed_by(third);
    let right = first.followed_by(second.followed_by(third));
    assert(left.commands =~= right.commands);
}

/// The recording that issues nothing and succeeds changes nothing, before or
/// after another.
pub proof fn lemma_nothing_is_neutral(recording: RecordingView)
    ensures
        RecordingView::done(Seq::empty()).followed_by(recording) == recording,
        recording.followed_by(RecordingView::done(Seq::empty())) == recording,
{
}

/// What has been issued stays issued: a recording begins whatever it is
/// followed by, and after an error nothing is added to it.
pub proof fn lemma_followed_by_extends(first: RecordingView, second: RecordingView)
    ensures
        first.commands.is_prefix_of(first.followed_by(second).commands),
        first.failure is Some ==> first.followed_by(second) == first,
        first.failure is None ==> first.followed_by(second).failure == second.failure,
{
    let both = first.followed_by(second);
}

impl Command {
    /// Whether the command changes where drawing goes.
    pub open spec fn binds_draw_target(self) -> bool {
        self matches Command::BindFramebuffer { target, .. } && target == DRAW_FRAMEBUFFER
    }
}

/// Where drawing goes once the commands have been issued: the framebuffer
/// that was bound last for drawing, `None` standing for the screen; and
/// where it went before, if none was bound.
pub open spec fn draw_target_after(
    commands: Seq<Command>,
    before: Option<Framebuffer>,
) -> Option<Framebuffer>
    decreases commands.len(),
{
    if commands.len() == 0 {
        before
    } else {
        match commands.last() {
            Command::BindFramebuffer { target, framebuffer } => if target == DRAW_FRAMEBUFFER {
                framebuffer
            } else {
                draw_target_after(commands.drop_last(), before)
            },
            _ => draw_target_after(commands.drop_last(), before),
        }
    }
}

/// Whether none of the commands changes where drawing goes.
pub open spec fn keeps_draw_target(commands: Seq<Command>) -> bool {
    forall|i: int| 0 <= i < commands.len() ==> !(#[trigger] commands[i]).binds_draw_target()
}

/// Commands that do not change where drawing goes leave it where the
/// commands before them have put it.
pub proof fn lemma_draw_target_is_kept(
    first: Seq<Command>,
    then: Seq<Command>,
    before: Option<Framebuffer>,
)
    requires
        keeps_draw_target(then),
    ensures
        draw_target_after(first + then, before) == draw_target_after(first, before),
    decreases then.len(),
{
    if then.len() > 0 {
        assert((first + then).drop_last() =~= first + then.drop_last());
        lemma_draw_target_is_kept(first, then.drop_last(), before);
    }
}

/// After a framebuffer has been bound for drawing, drawing goes to it for as
/// long as the commands that follow do not change where drawing goes.
pub proof fn lemma_draw_target_is_the_one_bound(
    framebuffer: Option<Framebuffer>,
    then: Seq<Command>,
    before: Option<Framebuffer>,
)
    requires
        keeps_draw_target(then),
    ensures
        draw_target_after(
            seq![Command::BindFramebuffer { target: DRAW_FRAMEBUFFER, framebuffer }] + then,
            before,
        ) == framebuffer,
{
    let bound = seq![Command::BindFramebuffer { target: DRAW_FRAMEBUFFER, framebuffer }];
    lemma_draw_target_is_kept(bound, then, before);
}

/// Commands that do not change where drawing goes, one after another, do not
/// change it either.
pub proof fn lemma_keeping_draw_target_adds_up(first: Seq<Command>, then: Seq<Command>)
    requires
        keeps_draw_target(first),
        keeps_draw_target(then),
    ensures
        keeps_draw_target(first + then),
{
}

/// Where drawing goes once the commands have been issued: the framebuffer
/// that was bound last for drawing, `None` standing for the screen; and
/// where it went before, if none was bound.
pub fn draw_target(commands: &Vec<Command>, before: Option<Framebuffer>) -> (target: Option<
    Framebuffer,
>)
    ensures
        target == draw_target_after(commands@, before),
{
    let mut i: usize = commands.len();
    assert(commands@.take(commands@.len() as int) =~= commands@);
    while i > 0
        invariant
            i <= commands@.len(),
            draw_target_after(commands@, before) == draw_target_after(
                commands@.take(i as int),
                before,
            ),
        decreases i,
    {
        let ghost considered = commands@.take(i as int);
        assert(considered.drop_last() =~= commands@.take(i - 1));
        match commands[i - 1] {
            Command::BindFramebuffer { target, framebuffer } => {
                if target == DRAW_FRAMEBUFFER {
                    return framebuffer;
                }
            },
            _ => {},
        }
        i = i - 1;
    }
    before
}

} // verus!
