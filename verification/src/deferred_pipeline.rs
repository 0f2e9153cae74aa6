//! A deferred pipeline based on the Phong reflection model: one pass writes
//! the geometry and the surface of what is seen into textures, a second pass
//! shades every pixel from them.

use vstd::prelude::*;
use crate::camera::Camera;
use crate::context::Command;
use crate::context::EffectSource;
use crate::context::Framebuffer;
use crate::context::Name;
use crate::context::Program;
use crate::context::Recording;
use crate::context::RecordingView;
use crate::context::Texture;
use crate::effect::ImageEffect;
use crate::light::bind_lights;
use crate::light::spec_bind_lights;
use crate::light::AmbientLight;
use crate::light::DirectionalLight;
use crate::light::PointLight;
use crate::light::SpotLight;
use crate::render_target::spec_no_framebuffer;
use crate::copy::Channels;
use crate::render_target::ClearState;
use crate::copy::CopyEffects;
use crate::render_target::RenderTarget;
use crate::render_target_array::RenderTargetArray;
use crate::states::CullType;
use crate::states::DepthTestType;
use crate::states::RenderStates;
use crate::states::Viewport;
use crate::states::WriteMask;
use crate::texture::ColorTargetTexture2DArray;
use crate::texture::DepthFormat;
use crate::texture::DepthTargetTexture2D;
use crate::texture::DepthTargetTexture2DArray;
use crate::texture::Format;
use crate::texture::Interpolation;
use crate::texture::Wrapping;

verus! {

/// Used for debug purposes.
#[allow(non_camel_case_types)]
#[derive(Debug, Copy, Clone, PartialEq, Eq, Structural)]
pub enum DebugType {
    POSITION,
    NORMAL,
    COLOR,
    DEPTH,
    DIFFUSE,
    SPECULAR,
    POWER,
    NONE,
}

impl DebugType {
    /// The number by which the debug shader knows what to show: the place
    /// of the variant in the list, counted from zero.
    pub open spec fn spec_index(self) -> i32 {
        match self {
            DebugType::POSITION => 0,
            DebugType::NORMAL => 1,
            DebugType::COLOR => 2,
            DebugType::DEPTH => 3,
            DebugType::DIFFUSE => 4,
            DebugType::SPECULAR => 5,
            DebugType::POWER => 6,
            DebugType::NONE => 7,
        }
    }

    /// The number by which the debug shader knows what to show.
    pub fn index(&self) -> (index: i32)
        ensures
            index == self.spec_index(),
    {
        match self {
            DebugType::POSITION => 0,
            DebugType::NORMAL => 1,
            DebugType::COLOR => 2,
            DebugType::DEPTH => 3,
            DebugType::DIFFUSE => 4,
            DebugType::SPECULAR => 5,
            DebugType::POWER => 6,
            DebugType::NONE => 7,
        }
    }
}

/// The lights of a pass, as far as the shader that shades them depends on
/// them: whether there is an ambient light, and how many lights of each
/// other kind.
#[derive(Clone, Copy, Debug, PartialEq, Eq, Structural)]
pub struct LightKey {
    pub ambient_light: bool,
    pub directional_lights: usize,
    pub spot_lights: usize,
    pub point_lights: usize,
}

/// Whether an effect is kept for the key.
pub open spec fn holds(programs: Seq<(LightKey, ImageEffect)>, key: LightKey) -> bool {
    exists|i: int| 0 <= i < programs.len() && (#[trigger] programs[i]).0 == key
}

/// The effect that is kept for the key.
pub open spec fn lookup(programs: Seq<(LightKey, ImageEffect)>, key: LightKey) -> ImageEffect {
    programs[choose|i: int| 0 <= i < programs.len() && (#[trigger] programs[i]).0 == key].1
}

/// Whether no key is kept twice.
pub open spec fn distinct_keys(programs: Seq<(LightKey, ImageEffect)>) -> bool {
    forall|i: int, j: int|
        0 <= i < j < programs.len() ==> (#[trigger] programs[i]).0 != (#[trigger] programs[j]).0
}

/// Deferred pipeline based on the Phong reflection model supporting a
/// performance-limited amount of directional, point and spot lights with
/// shadows. Supports colored, textured and instanced meshes.
#[derive(Debug, PartialEq, Eq)]
pub struct PhongDeferredPipeline {
    /// The effect that shades each combination of lights met so far.
    pub program_map: Vec<(LightKey, ImageEffect)>,
    /// The effect that shows a buffer of the geometry pass, once it has been
    /// needed.
    pub debug_effect: Option<ImageEffect>,
    /// Set this to visualize the positions, normals etc. for debug purposes.
    pub debug_type: DebugType,
    /// The two layers of colour that the geometry pass fills.
    pub geometry_pass_texture: Option<ColorTargetTexture2DArray>,
    /// The depth that the geometry pass fills.
    pub geometry_pass_depth_texture: Option<DepthTargetTexture2DArray>,
}

impl PhongDeferredPipeline {
    /// What holds of every pipeline: it has the two textures of the
    /// geometry pass, and it keeps no combination of lights twice.
    pub open spec fn wf(&self) -> bool {
        &&& self.geometry_pass_texture is Some
        &&& self.geometry_pass_depth_texture is Some
        &&& distinct_keys(self.program_map@)
    }

    /// The command that makes the colour textures of a geometry pass of the
    /// given size: two layers of four bytes a pixel, sampled at the nearest
    /// texel and clamped to the edge.
    pub open spec fn spec_create_color(texture: Texture, width: usize, height: usize) -> Command {
        ColorTargetTexture2DArray::spec_create(
            texture,
            width,
            height,
            2,
            Interpolation::Nearest,
            Interpolation::Nearest,
            None,
            Wrapping::ClampToEdge,
            Wrapping::ClampToEdge,
            Format::RGBA8,
        )
    }

    /// The command that makes the depth texture of a geometry pass of the
    /// given size: one layer of 32 bits a pixel, clamped to the edge.
    pub open spec fn spec_create_depth(texture: Texture, width: usize, height: usize) -> Command {
        DepthTargetTexture2DArray::spec_create(
            texture,
            width,
            height,
            1,
            Wrapping::ClampToEdge,
            Wrapping::ClampToEdge,
            DepthFormat::Depth32F,
        )
    }

    /// The state under which the light pass draws: back faces are thrown
    /// away, and a fragment passes the depth test wherever nothing nearer
    /// has been drawn.
    pub open spec fn spec_render_states() -> RenderStates {
        RenderStates {
            write_mask: WriteMask::spec_color_and_depth(),
            depth_test: DepthTestType::LessOrEqual,
            cull: CullType::Back,
        }
    }

    /// The name of the colour textures of the geometry pass.
    pub open spec fn spec_geometry_pass_texture(&self) -> Texture {
        self.geometry_pass_texture->0.texture
    }

    /// The name of the depth texture of the geometry pass.
    pub open spec fn spec_geometry_pass_depth_texture_array(&self) -> Texture {
        self.geometry_pass_depth_texture->0.texture
    }

    /// What the geometry pass issues before it looks at the framebuffer:
    /// the new textures are made, and as each is put in its place the one
    /// that it replaces is freed.
    pub open spec fn spec_renew_textures(
        &self,
        width: usize,
        height: usize,
        color_texture: Texture,
        depth_texture: Texture,
    ) -> Seq<Command> {
        seq![
            Self::spec_create_color(color_texture, width, height),
            Command::DeleteTexture { texture: self.spec_geometry_pass_texture() },
            Self::spec_create_depth(depth_texture, width, height),
            Command::DeleteTexture { texture: self.spec_geometry_pass_depth_texture_array() },
        ]
    }

    /// What the geometry pass issues: the textures are renewed; where the
    /// device gave no framebuffer, that is the end, with the error; else
    /// the rendering is written into both layers of colour and the layer of
    /// depth of the new textures, cleared to opaque black and depth one,
    /// and the framebuffer is freed again, however the rendering ended.
    pub open spec fn spec_geometry_pass(
        &self,
        width: usize,
        height: usize,
        color_texture: Texture,
        depth_texture: Texture,
        framebuffer: Option<Framebuffer>,
        rendering: RecordingView,
    ) -> RecordingView {
        let renewed = self.spec_renew_textures(width, height, color_texture, depth_texture);
        match framebuffer {
            None => RecordingView::failed(renewed, spec_no_framebuffer()),
            Some(id) => {
                let target = RenderTargetArray {
                    id,
                    color_texture: Some(
                        &ColorTargetTexture2DArray { texture: color_texture, width, height, depth: 2 },
                    ),
                    depth_texture: Some(
                        &DepthTargetTexture2DArray { texture: depth_texture, width, height, depth: 1 },
                    ),
                };
                let written = target.spec_write(
                    ClearState::spec_default(),
                    seq![0usize, 1usize],
                    0,
                    rendering,
                );
                RecordingView {
                    commands: renewed + written.commands + seq![
                        Command::DeleteFramebuffer { framebuffer: id },
                    ],
                    failure: written.failure,
                }
            },
        }
    }

    /// Whether the light pass reads the inverse of the camera's projection
    /// and view: when it shows a buffer for debugging, and when there is any
    /// light that is not ambient.
    pub open spec fn reads_view_projection_inverse(
        &self,
        directional_lights: nat,
        spot_lights: nat,
        point_lights: nat,
    ) -> bool {
        self.debug_type != DebugType::NONE || directional_lights > 0 || spot_lights > 0
            || point_lights > 0
    }

    /// What the light pass issues when it shows a buffer for debugging: the
    /// debug effect is compiled under the spare name if the pipeline has
    /// none yet; then it is handed the inverse of the camera's projection
    /// and view, the textures of the geometry pass and the number of the
    /// buffer to show, and run over the viewport.
    pub open spec fn spec_debug_pass(
        &self,
        viewport: Viewport,
        camera: Camera,
        spare: Program,
    ) -> Seq<Command> {
        let effect = match self.debug_effect {
            Some(effect) => effect.program,
            None => spare,
        };
        (match self.debug_effect {
            Some(_) => Seq::empty(),
            None => seq![Command::CreateImageEffect { effect: spare, source: EffectSource::Debug }],
        }) + seq![
            Command::UseUniformMat4 {
                program: effect,
                name: Name::ViewProjectionInverse,
                value: camera.view_projection_inverse->0,
            },
            Command::UseTexture {
                program: effect,
                texture: self.spec_geometry_pass_texture(),
                name: Name::Gbuffer,
            },
            Command::UseTexture {
                program: effect,
                texture: self.spec_geometry_pass_depth_texture_array(),
                name: Name::DepthMap,
            },
            Command::UseUniformInt {
                program: effect,
                name: Name::Type,
                value: self.debug_type.spec_index(),
            },
            Command::Apply { effect, render_states: Self::spec_render_states(), viewport },
        ]
    }

    /// What the light pass issues when it shades: the effect for this
    /// combination of lights is compiled under the spare name if the
    /// pipeline keeps none yet; then it is handed the lights and the
    /// textures of the geometry pass and, where any light is not ambient,
    /// the place of the eye and the inverse of the camera's projection and
    /// view, and run over the viewport.
    pub open spec fn spec_shading_pass(
        &self,
        viewport: Viewport,
        camera: Camera,
        ambient_light: Option<&AmbientLight>,
        directional_lights: Seq<&DirectionalLight>,
        spot_lights: Seq<&SpotLight>,
        point_lights: Seq<&PointLight>,
        spare: Program,
    ) -> Seq<Command> {
        let key = LightKey {
            ambient_light: ambient_light is Some,
            directional_lights: directional_lights.len() as usize,
            spot_lights: spot_lights.len() as usize,
            point_lights: point_lights.len() as usize,
        };
        let known = holds(self.program_map@, key);
        let effect = if known {
            lookup(self.program_map@, key).program
        } else {
            spare
        };
        (if known {
            Seq::empty()
        } else {
            seq![
                Command::CreateImageEffect {
                    effect: spare,
                    source: EffectSource::Phong {
                        directional_lights: key.directional_lights,
                        spot_lights: key.spot_lights,
                        point_lights: key.point_lights,
                    },
                },
            ]
        }) + spec_bind_lights(effect, ambient_light, directional_lights, spot_lights, point_lights)
            + seq![
            Command::UseTexture {
                program: effect,
                texture: self.spec_geometry_pass_texture(),
                name: Name::Gbuffer,
            },
            Command::UseTexture {
                program: effect,
                texture: self.spec_geometry_pass_depth_texture_array(),
                name: Name::DepthMap,
            },
        ] + (if directional_lights.len() > 0 || spot_lights.len() > 0 || point_lights.len() > 0 {
            seq![
                Command::UseUniformVec3 {
                    program: effect,
                    name: Name::EyePosition,
                    value: camera.position,
                },
                Command::UseUniformMat4 {
                    program: effect,
                    name: Name::ViewProjectionInverse,
                    value: camera.view_projection_inverse->0,
                },
            ]
        } else {
            Seq::empty()
        }) + seq![Command::Apply { effect, render_states: Self::spec_render_states(), viewport }]
    }

    /// What the light pass issues: the debug pass where a buffer is to be
    /// shown, the shading pass otherwise.
    pub open spec fn spec_light_pass(
        &self,
        viewport: Viewport,
        camera: Camera,
        ambient_light: Option<&AmbientLight>,
        directional_lights: Seq<&DirectionalLight>,
        spot_lights: Seq<&SpotLight>,
        point_lights: Seq<&PointLight>,
        spare: Program,
    ) -> Seq<Command> {
        if self.debug_type != DebugType::NONE {
            self.spec_debug_pass(viewport, camera, spare)
        } else {
            self.spec_shading_pass(
                viewport,
                camera,
                ambient_light,
                directional_lights,
                spot_lights,
                point_lights,
                spare,
            )
        }
    }

    /// The effects that the pipeline keeps after a light pass: where the
    /// pass shaded a combination of lights for which none was kept, the one
    /// of the spare name is kept for it from now on.
    pub open spec fn spec_program_map_after(
        &self,
        ambient_light: bool,
        directional_lights: nat,
        spot_lights: nat,
        point_lights: nat,
        spare: Program,
    ) -> Seq<(LightKey, ImageEffect)> {
        let key = LightKey {
            ambient_light,
            directional_lights: directional_lights as usize,
            spot_lights: spot_lights as usize,
            point_lights: point_lights as usize,
        };
        if self.debug_type != DebugType::NONE || holds(self.program_map@, key) {
            self.program_map@
        } else {
            self.program_map@.push((key, ImageEffect { program: spare }))
        }
    }

    /// The debug effect that the pipeline has after a light pass: where the
    /// pass showed a buffer and the pipeline had none, the one of the spare
    /// name.
    pub open spec fn spec_debug_effect_after(&self, spare: Program) -> Option<ImageEffect> {
        if self.debug_type != DebugType::NONE && self.debug_effect is None {
            Some(ImageEffect { program: spare })
        } else {
            self.debug_effect
        }
    }

    /// What making a texture of the depth of the geometry pass issues: the
    /// texture is made in the size of the geometry pass; layer zero of the
    /// depth of the geometry pass is copied to it; and the two framebuffers
    /// that the copy went through are freed, the one of the new texture
    /// first.
    pub open spec fn spec_geometry_pass_depth_texture(
        &self,
        effects: CopyEffects,
        texture: Texture,
        array_framebuffer: Framebuffer,
        framebuffer: Framebuffer,
    ) -> RecordingView {
        let source = self.geometry_pass_depth_texture->0;
        let made = DepthTargetTexture2D { texture, width: source.width, height: source.height };
        RecordingView::done(
            seq![
                DepthTargetTexture2D::spec_create(
                    texture,
                    source.width,
                    source.height,
                    Wrapping::ClampToEdge,
                    Wrapping::ClampToEdge,
                    DepthFormat::Depth32F,
                ),
            ],
        ).followed_by(
            (RenderTargetArray {
                id: array_framebuffer,
                color_texture: None,
                depth_texture: Some(&source),
            }).spec_copy(
                effects,
                Channels::Depth,
                0,
                0,
                &RenderTarget { id: framebuffer, color_texture: None, depth_texture: Some(&made) },
                Viewport { x: 0, y: 0, width: source.width, height: source.height },
            ),
        ).followed_by(
            RecordingView::done(
                seq![
                    Command::DeleteFramebuffer { framebuffer },
                    Command::DeleteFramebuffer { framebuffer: array_framebuffer },
                ],
            ),
        )
    }

    /// A new pipeline, with the commands that make its first textures for
    /// the geometry pass, of one pixel each, under the given names.
    pub fn new(color_texture: Texture, depth_texture: Texture) -> (made: (Self, Vec<Command>))
        ensures
            made.0.wf(),
            made.0.program_map@ == Seq::<(LightKey, ImageEffect)>::empty(),
            made.0.debug_effect is None,
            made.0.debug_type == DebugType::NONE,
            made.0.geometry_pass_texture == Some(
                ColorTargetTexture2DArray { texture: color_texture, width: 1, height: 1, depth: 2 },
            ),
            made.0.geometry_pass_depth_texture == Some(
                DepthTargetTexture2DArray { texture: depth_texture, width: 1, height: 1, depth: 1 },
            ),
            made.1@ == seq![
                Self::spec_create_color(color_texture, 1, 1),
                Self::spec_create_depth(depth_texture, 1, 1),
            ],
    {
        let (color, create_color) = ColorTargetTexture2DArray::new(
            color_texture,
            1,
            1,
            2,
            Interpolation::Nearest,
            Interpolation::Nearest,
            None,
            Wrapping::ClampToEdge,
            Wrapping::ClampToEdge,
            Format::RGBA8,
        );
        let (depth, create_depth) = DepthTargetTexture2DArray::new(
            depth_texture,
            1,
            1,
            1,
            Wrapping::ClampToEdge,
            Wrapping::ClampToEdge,
            DepthFormat::Depth32F,
        );
        let mut commands: Vec<Command> = Vec::new();
        commands.push(create_color);
        commands.push(create_depth);
        let renderer = Self {
            program_map: Vec::new(),
            debug_effect: None,
            debug_type: DebugType::NONE,
            geometry_pass_texture: Some(color),
            geometry_pass_depth_texture: Some(depth),
        };
        (renderer, commands)
    }

    /// Render the geometry and surface material parameters of Phong meshes
    /// by rendering them inside the `render` closure. The pass renders into
    /// new textures of the given size, which take the given names; the
    /// framebuffer is the one that the device gave for this pass. This
    /// function must not be called in a render target render function, but
    /// needs to be followed by a call to `light_pass`, which must be inside
    /// a render target render function.
    ///
    /// # Errors
    /// Will return an error if the device gave no framebuffer; the closure
    /// is not called then. Will return the error of the rendering if it
    /// fails.
    pub fn geometry_pass<F: FnOnce() -> Recording>(
        &mut self,
        width: usize,
        height: usize,
        color_texture: Texture,
        depth_texture: Texture,
        framebuffer: Option<Framebuffer>,
        render: F,
    ) -> (recording: Recording)
        requires
            old(self).wf(),
            framebuffer is Some ==> render.requires(()),
        ensures
            framebuffer is None ==> recording@ == old(self).spec_geometry_pass(
                width,
                height,
                color_texture,
                depth_texture,
                framebuffer,
                RecordingView::done(Seq::empty()),
            ),
            framebuffer is Some ==> exists|rendering: Recording|
                render.ensures((), rendering) && recording@ == old(self).spec_geometry_pass(
                    width,
                    height,
                    color_texture,
                    depth_texture,
                    framebuffer,
                    rendering@,
                ),
            final(self).wf(),
            final(self).program_map == old(self).program_map,
            final(self).debug_effect == old(self).debug_effect,
            final(self).debug_type == old(self).debug_type,
            final(self).geometry_pass_texture == Some(
                ColorTargetTexture2DArray { texture: color_texture, width, height, depth: 2 },
            ),
            final(self).geometry_pass_depth_texture == Some(
                DepthTargetTexture2DArray { texture: depth_texture, width, height, depth: 1 },
            ),
    {
        let ghost renewed = self.spec_renew_textures(width, height, color_texture, depth_texture);
        let mut commands: Vec<Command> = Vec::new();
        let (color, create_color) = ColorTargetTexture2DArray::new(
            color_texture,
            width,
            height,
            2,
            Interpolation::Nearest,
            Interpolation::Nearest,
            None,
            Wrapping::ClampToEdge,
            Wrapping::ClampToEdge,
            Format::RGBA8,
        );
        commands.push(create_color);
        if let Some(replaced) = &self.geometry_pass_texture {
            commands.push(Command::DeleteTexture { texture: replaced.texture });
        }
        self.geometry_pass_texture = Some(color);
        let (depth, create_depth) = DepthTargetTexture2DArray::new(
            depth_texture,
            width,
            height,
            1,
            Wrapping::ClampToEdge,
            Wrapping::ClampToEdge,
            DepthFormat::Depth32F,
        );
        commands.push(create_depth);
        if let Some(replaced) = &self.geometry_pass_depth_texture {
            commands.push(Command::DeleteTexture { texture: replaced.texture });
        }
        self.geometry_pass_depth_texture = Some(depth);
        assert(commands@ =~= renewed);
        let made = RenderTargetArray::new(
            framebuffer,
            self.geometry_pass_texture.as_ref().unwrap(),
            self.geometry_pass_depth_texture.as_ref().unwrap(),
        );
        match made {
            Err(error) => Recording { commands, result: Err(error) },
            Ok(target) => {
                let mut layers: Vec<usize> = Vec::new();
                layers.push(0);
                layers.push(1);
                assert(layers@ =~= seq![0usize, 1usize]);
                let rendering = render();
                let written = target.write_recording(
                    &ClearState::default(),
                    layers.as_slice(),
                    0,
                    rendering,
                );
                let free = target.delete();
                let Recording { commands: mut issued, result } = written;
                commands.append(&mut issued);
                commands.push(free);
                let recording = Recording { commands, result };
                assert(recording@.commands =~= renewed + written@.commands + seq![
                    Command::DeleteFramebuffer { framebuffer: framebuffer->0 },
                ]);
                recording
            },
        }
    }

    fn find(&self, key: &LightKey) -> (found: Option<ImageEffect>)
        requires
            distinct_keys(self.program_map@),
        ensures
            found is Some == holds(self.program_map@, *key),
            found is Some ==> found->0 == lookup(self.program_map@, *key),
    {
        let mut i: usize = 0;
        while i < self.program_map.len()
            invariant
                i <= self.program_map@.len(),
                distinct_keys(self.program_map@),
                forall|j: int| 0 <= j < i ==> (#[trigger] self.program_map@[j]).0 != *key,
            decreases self.program_map@.len() - i,
        {
            if self.program_map[i].0 == *key {
                return Some(self.program_map[i].1);
            }
            i = i + 1;
        }
        None
    }

    /// Uses the geometry and surface material parameters written in the
    /// last `geometry_pass` call and all of the given lights to shade the
    /// Phong meshes. Where `debug_type` is set, shows the buffer that it
    /// names instead. The spare name is the one under which an effect is
    /// compiled if this pass is the first to need it. Must be called in a
    /// render target render function, for example in the closure of
    /// `Screen::write`.
    pub fn light_pass(
        &mut self,
        viewport: Viewport,
        camera: &Camera,
        ambient_light: Option<&AmbientLight>,
        directional_lights: &[&DirectionalLight],
        spot_lights: &[&SpotLight],
        point_lights: &[&PointLight],
        spare: Program,
    ) -> (recording: Recording)
        requires
            old(self).wf(),
            old(self).reads_view_projection_inverse(
                directional_lights@.len(),
                spot_lights@.len(),
                point_lights@.len(),
            ) ==> camera.view_projection_inverse is Some,
        ensures
            recording@ == RecordingView::done(
                old(self).spec_light_pass(
                    viewport,
                    *camera,
                    ambient_light,
                    directional_lights@,
                    spot_lights@,
                    point_lights@,
                    spare,
                ),
            ),
            final(self).wf(),
            final(self).program_map@ == old(self).spec_program_map_after(
                ambient_light is Some,
                directional_lights@.len(),
                spot_lights@.len(),
                point_lights@.len(),
                spare,
            ),
            final(self).debug_effect == old(self).spec_debug_effect_after(spare),
            final(self).debug_type == old(self).debug_type,
            final(self).geometry_pass_texture == old(self).geometry_pass_texture,
            final(self).geometry_pass_depth_texture == old(self).geometry_pass_depth_texture,
    {
        if self.debug_type != DebugType::NONE {
            Recording::done(self.debug_pass(viewport, camera, spare))
        } else {
            Recording::done(
                self.shading_pass(
                    viewport,
                    camera,
                    ambient_light,
                    directional_lights,
                    spot_lights,
                    point_lights,
                    spare,
                ),
            )
        }
    }

    fn debug_pass(&mut self, viewport: Viewport, camera: &Camera, spare: Program) -> (commands: Vec<
        Command,
    >)
        requires
            old(self).wf(),
            camera.view_projection_inverse is Some,
        ensures
            commands@ == old(self).spec_debug_pass(viewport, *camera, spare),
            final(self).debug_effect == (match old(self).debug_effect {
                Some(effect) => Some(effect),
                None => Some(ImageEffect { program: spare }),
            }),
            final(self).program_map == old(self).program_map,
            final(self).debug_type == old(self).debug_type,
            final(self).geometry_pass_texture == old(self).geometry_pass_texture,
            final(self).geometry_pass_depth_texture == old(self).geometry_pass_depth_texture,
    {
        let render_states = RenderStates {
            cull: CullType::Back,
            depth_test: DepthTestType::LessOrEqual,
            write_mask: WriteMask::default(),
        };
        let gbuffer = self.geometry_pass_texture();
        let depth_map = self.geometry_pass_depth_texture_array();
        let mut commands: Vec<Command> = Vec::new();
        if self.debug_effect.is_none() {
            commands.push(Command::CreateImageEffect { effect: spare, source: EffectSource::Debug });
            self.debug_effect = Some(ImageEffect { program: spare });
        }
        let effect = self.debug_effect.unwrap().program;
        commands.push(
            Command::UseUniformMat4 {
                program: effect,
                name: Name::ViewProjectionInverse,
                value: camera.view_projection_inverse.unwrap(),
            },
        );
        commands.push(Command::UseTexture { program: effect, texture: gbuffer, name: Name::Gbuffer });
        commands.push(
            Command::UseTexture { program: effect, texture: depth_map, name: Name::DepthMap },
        );
        commands.push(
            Command::UseUniformInt {
                program: effect,
                name: Name::Type,
                value: self.debug_type.index(),
            },
        );
        commands.push(Command::Apply { effect, render_states, viewport });
        commands
    }

    fn effect_for(&mut self, key: LightKey, spare: Program) -> (got: (Program, Vec<Command>))
        requires
            old(self).wf(),
        ensures
            got.0 == if holds(old(self).program_map@, key) {
                lookup(old(self).program_map@, key).program
            } else {
                spare
            },
            got.1@ == if holds(old(self).program_map@, key) {
                Seq::<Command>::empty()
            } else {
                seq![
                    Command::CreateImageEffect {
                        effect: spare,
                        source: EffectSource::Phong {
                            directional_lights: key.directional_lights,
                            spot_lights: key.spot_lights,
                            point_lights: key.point_lights,
                        },
                    },
                ]
            },
            final(self).program_map@ == if holds(old(self).program_map@, key) {
                old(self).program_map@
            } else {
                old(self).program_map@.push((key, ImageEffect { program: spare }))
            },
            final(self).wf(),
            final(self).debug_effect == old(self).debug_effect,
            final(self).debug_type == old(self).debug_type,
            final(self).geometry_pass_texture == old(self).geometry_pass_texture,
            final(self).geometry_pass_depth_texture == old(self).geometry_pass_depth_texture,
    {
        let mut commands: Vec<Command> = Vec::new();
        match self.find(&key) {
            Some(effect) => (effect.program, commands),
            None => {
                commands.push(
                    Command::CreateImageEffect {
                        effect: spare,
                        source: EffectSource::Phong {
                            directional_lights: key.directional_lights,
                            spot_lights: key.spot_lights,
                            point_lights: key.point_lights,
                        },
                    },
                );
                self.program_map.push((key, ImageEffect { program: spare }));
                (spare, commands)
            },
        }
    }

    fn shading_pass(
        &mut self,
        viewport: Viewport,
        camera: &Camera,
        ambient_light: Option<&AmbientLight>,
        directional_lights: &[&DirectionalLight],
        spot_lights: &[&SpotLight],
        point_lights: &[&PointLight],
        spare: Program,
    ) -> (commands: Vec<Command>)
        requires
            old(self).wf(),
            directional_lights@.len() > 0 || spot_lights@.len() > 0 || point_lights@.len() > 0
                ==> camera.view_projection_inverse is Some,
        ensures
            commands@ == old(self).spec_shading_pass(
                viewport,
                *camera,
                ambient_light,
                directional_lights@,
                spot_lights@,
                point_lights@,
                spare,
            ),
            final(self).wf(),
            final(self).program_map@ == (if holds(
                old(self).program_map@,
                LightKey {
                    ambient_light: ambient_light is Some,
                    directional_lights: directional_lights@.len() as usize,
                    spot_lights: spot_lights@.len() as usize,
                    point_lights: point_lights@.len() as usize,
                },
            ) {
                old(self).program_map@
            } else {
                old(self).program_map@.push(
                    (
                        LightKey {
                            ambient_light: ambient_light is Some,
                            directional_lights: directional_lights@.len() as usize,
                            spot_lights: spot_lights@.len() as usize,
                            point_lights: point_lights@.len() as usize,
                        },
                        ImageEffect { program: spare },
                    ),
                )
            }),
            final(self).debug_effect == old(self).debug_effect,
            final(self).debug_type == old(self).debug_type,
            final(self).geometry_pass_texture == old(self).geometry_pass_texture,
            final(self).geometry_pass_depth_texture == old(self).geometry_pass_depth_texture,
    {
        let render_states = RenderStates {
            cull: CullType::Back,
            depth_test: DepthTestType::LessOrEqual,
            write_mask: WriteMask::default(),
        };
        let gbuffer = self.geometry_pass_texture();
        let depth_map = self.geometry_pass_depth_texture_array();
        let key = LightKey {
            ambient_light: ambient_light.is_some(),
            directional_lights: directional_lights.len(),
            spot_lights: spot_lights.len(),
            point_lights: point_lights.len(),
        };
        let (effect, mut commands) = self.effect_for(key, spare);
        let ghost created = commands@;
        let mut bound = bind_lights(
            effect,
            ambient_light,
            directional_lights,
            spot_lights,
            point_lights,
        );
        let ghost lights = bound@;
        commands.append(&mut bound);
        commands.push(Command::UseTexture { program: effect, texture: gbuffer, name: Name::Gbuffer });
        commands.push(
            Command::UseTexture { program: effect, texture: depth_map, name: Name::DepthMap },
        );
        let ghost textures = seq![
            Command::UseTexture { program: effect, texture: gbuffer, name: Name::Gbuffer },
            Command::UseTexture { program: effect, texture: depth_map, name: Name::DepthMap },
        ];
        let ghost eye: Seq<Command> = if directional_lights@.len() > 0 || spot_lights@.len() > 0
            || point_lights@.len() > 0 {
            seq![
                Command::UseUniformVec3 {
                    program: effect,
                    name: Name::EyePosition,
                    value: camera.position,
                },
                Command::UseUniformMat4 {
                    program: effect,
                    name: Name::ViewProjectionInverse,
                    value: camera.view_projection_inverse->0,
                },
            ]
        } else {
            Seq::empty()
        };
        if !directional_lights.is_empty() || !spot_lights.is_empty() || !point_lights.is_empty() {
            commands.push(
                Command::UseUniformVec3 {
                    program: effect,
                    name: Name::EyePosition,
                    value: camera.position(),
                },
            );
            commands.push(
                Command::UseUniformMat4 {
                    program: effect,
                    name: Name::ViewProjectionInverse,
                    value: camera.view_projection_inverse.unwrap(),
                },
            );
        }
        commands.push(Command::Apply { effect, render_states, viewport });
        assert(commands@ =~= created + lights + textures + eye + seq![
            Command::Apply { effect, render_states, viewport },
        ]);
        commands
    }

    fn keeps_key_once(&self, at: usize) -> (once: bool)
        requires
            at < self.program_map@.len(),
        ensures
            once == forall|j: int|
                at < j < self.program_map@.len() ==> self.program_map@[at as int].0 != (
                #[trigger] self.program_map@[j]).0,
    {
        let length: usize = self.program_map.len();
        let mut j: usize = at + 1;
        while j < length
            invariant
                at < j <= self.program_map@.len(),
                length == self.program_map@.len(),
                forall|k: int|
                    at < k < j ==> self.program_map@[at as int].0 != (
                    #[trigger] self.program_map@[k]).0,
            decreases self.program_map@.len() - j,
        {
            if self.program_map[at].0 == self.program_map[j].0 {
                return false;
            }
            j = j + 1;
        }
        true
    }

    /// Whether the pipeline is as every pipeline is to be: with the two
    /// textures of the geometry pass, and with no combination of lights
    /// kept twice.
    pub fn is_well_formed(&self) -> (well_formed: bool)
        ensures
            well_formed == self.wf(),
    {
        if self.geometry_pass_texture.is_none() || self.geometry_pass_depth_texture.is_none() {
            return false;
        }
        let mut i: usize = 0;
        while i < self.program_map.len()
            invariant
                i <= self.program_map@.len(),
                forall|a: int, b: int|
                    0 <= a < i && a < b < self.program_map@.len() ==> (
                    #[trigger] self.program_map@[a]).0 != (#[trigger] self.program_map@[b]).0,
            decreases self.program_map@.len() - i,
        {
            if !self.keeps_key_once(i) {
                return false;
            }
            i = i + 1;
        }
        true
    }

    /// Whether a light pass with the given numbers of lights reads the
    /// inverse of the camera's projection and view.
    pub fn needs_view_projection_inverse(
        &self,
        directional_lights: usize,
        spot_lights: usize,
        point_lights: usize,
    ) -> (needed: bool)
        ensures
            needed == self.reads_view_projection_inverse(
                directional_lights as nat,
                spot_lights as nat,
                point_lights as nat,
            ),
    {
        self.debug_type != DebugType::NONE || directional_lights > 0 || spot_lights > 0
            || point_lights > 0
    }

    /// The name of the colour textures that the last geometry pass has
    /// filled.
    pub fn geometry_pass_texture(&self) -> (texture: Texture)
        requires
            self.wf(),
        ensures
            texture == self.spec_geometry_pass_texture(),
    {
        self.geometry_pass_texture.as_ref().unwrap().texture
    }

    /// The name of the depth textures that the last geometry pass has
    /// filled.
    pub fn geometry_pass_depth_texture_array(&self) -> (texture: Texture)
        requires
            self.wf(),
        ensures
            texture == self.spec_geometry_pass_depth_texture_array(),
    {
        self.geometry_pass_depth_texture.as_ref().unwrap().texture
    }

    /// A new depth texture, under the given name, with the depth that the
    /// last geometry pass has written, and the commands that make and fill
    /// it. The two framebuffers are the ones that the device gave for the
    /// copy: one to read the depth of the geometry pass through, one to
    /// write the new texture through.
    pub fn geometry_pass_depth_texture(
        &self,
        effects: &mut CopyEffects,
        texture: Texture,
        array_framebuffer: Framebuffer,
        framebuffer: Framebuffer,
    ) -> (made: (DepthTargetTexture2D, Recording))
        requires
            self.wf(),
        ensures
            made.0 == (DepthTargetTexture2D {
                texture,
                width: self.geometry_pass_depth_texture->0.width,
                height: self.geometry_pass_depth_texture->0.height,
            }),
            made.1@ == self.spec_geometry_pass_depth_texture(
                *old(effects),
                texture,
                array_framebuffer,
                framebuffer,
            ),
            made.1@.failure is None,
            *final(effects) == old(effects).with_copy_array_effect(),
    {
        let depth_array = self.geometry_pass_depth_texture.as_ref().unwrap();
        let (depth_texture, create) = DepthTargetTexture2D::new(
            texture,
            depth_array.width(),
            depth_array.height(),
            Wrapping::ClampToEdge,
            Wrapping::ClampToEdge,
            DepthFormat::Depth32F,
        );
        let mut commands: Vec<Command> = Vec::new();
        commands.push(create);
        let source = RenderTargetArray {
            id: array_framebuffer,
            color_texture: None,
            depth_texture: Some(depth_array),
        };
        let target = RenderTarget {
            id: framebuffer,
            color_texture: None,
            depth_texture: Some(&depth_texture),
        };
        let copied = source.copy_depth(
            effects,
            0,
            &target,
            Viewport::new_at_origo(depth_array.width(), depth_array.height()),
        );
        let mut free: Vec<Command> = Vec::new();
        free.push(target.delete());
        free.push(source.delete());
        assert(free@ =~= seq![
            Command::DeleteFramebuffer { framebuffer },
            Command::DeleteFramebuffer { framebuffer: array_framebuffer },
        ]);
        let recording = Recording::done(commands).followed_by(copied).followed_by(
            Recording::done(free),
        );
        (depth_texture, recording)
    }
}

/// After a light pass that shades, the pipeline keeps an effect for the
/// combination of lights of the pass, keeps the effect of every combination
/// that it kept before, and keeps none twice.
pub proof fn lemma_a_light_pass_keeps_its_effect(
    pipeline: PhongDeferredPipeline,
    ambient_light: bool,
    directional_lights: usize,
    spot_lights: usize,
    point_lights: usize,
    spare: Program,
    other: LightKey,
)
    requires
        pipeline.wf(),
        pipeline.debug_type == DebugType::NONE,
    ensures
        holds(
            pipeline.spec_program_map_after(
                ambient_light,
                directional_lights as nat,
                spot_lights as nat,
                point_lights as nat,
                spare,
            ),
            LightKey { ambient_light, directional_lights, spot_lights, point_lights },
        ),
        holds(pipeline.program_map@, other) ==> holds(
            pipeline.spec_program_map_after(
                ambient_light,
                directional_lights as nat,
                spot_lights as nat,
                point_lights as nat,
                spare,
            ),
            other,
        ) && lookup(
            pipeline.spec_program_map_after(
                ambient_light,
                directional_lights as nat,
                spot_lights as nat,
                point_lights as nat,
                spare,
            ),
            other,
        ) == lookup(pipeline.program_map@, other),
        distinct_keys(
            pipeline.spec_program_map_after(
                ambient_light,
                directional_lights as nat,
                spot_lights as nat,
                point_lights as nat,
                spare,
            ),
        ),
{
    let key = LightKey { ambient_light, directional_lights, spot_lights, point_lights };
    let before = pipeline.program_map@;
    let after = pipeline.spec_program_map_after(
        ambient_light,
        directional_lights as nat,
        spot_lights as nat,
        point_lights as nat,
        spare,
    );
    if !holds(before, key) {
        assert(after[before.len() as int].0 == key);
    }
    if holds(before, other) {
        let found = choose|i: int| 0 <= i < before.len() && (#[trigger] before[i]).0 == other;
        let kept = choose|i: int| 0 <= i < after.len() && (#[trigger] after[i]).0 == other;
        if kept < found {
            assert(after[kept].0 != after[found].0);
        }
        if found < kept {
            assert(after[found].0 != after[kept].0);
        }
    }
}

/// A geometry pass that was given a framebuffer frees it again as the last
/// thing that it does, whether its rendering succeeded or not, and ends as
/// its rendering ends.
pub proof fn lemma_a_geometry_pass_frees_its_framebuffer(
    pipeline: PhongDeferredPipeline,
    width: usize,
    height: usize,
    color_texture: Texture,
    depth_texture: Texture,
    framebuffer: Framebuffer,
    rendering: RecordingView,
)
    ensures
        pipeline.spec_geometry_pass(
            width,
            height,
            color_texture,
            depth_texture,
            Some(framebuffer),
            rendering,
        ).commands.last() == (Command::DeleteFramebuffer { framebuffer }),
        pipeline.spec_geometry_pass(
            width,
            height,
            color_texture,
            depth_texture,
            Some(framebuffer),
            rendering,
        ).failure == rendering.failure,
{
}

} // verus!
