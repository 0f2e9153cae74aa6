//! Copies from a render target to the screen or to another render target:
//! the effects that make them, and the commands that hand an effect its
//! textures and run it.

use vstd::prelude::*;
use vstd::string::*;
use crate::context::Command;
use crate::context::EffectSource;
use crate::context::Name;
use crate::context::Program;
use crate::context::Recording;
use crate::context::RecordingView;
use crate::context::Texture;
use crate::effect::ImageEffect;
use crate::error::Error;
use crate::error::ErrorView;
use crate::states::CullType;
use crate::states::DepthTestType;
use crate::states::RenderStates;
use crate::states::Viewport;
use crate::states::WriteMask;

verus! {

/// The fragment shader of the effect that copies a colour and a depth texture
/// to the target that is written to.
pub const COPY_EFFECT_SOURCE: &'static str =
    "\n                uniform sampler2D colorMap;\n                uniform sampler2D depthMap;\n                in vec2 uv;\n                layout (location = 0) out vec4 color;\n                void main()\n                {\n                    color = texture(colorMap, uv);\n                    gl_FragDepth = texture(depthMap, uv).r;\n                }";

/// The fragment shader of the effect that copies one layer of a stack of
/// colour textures and one layer of a stack of depth textures to the target
/// that is written to.
pub const COPY_ARRAY_EFFECT_SOURCE: &'static str =
    "\n                uniform sampler2DArray colorMap;\n                uniform sampler2DArray depthMap;\n                uniform int colorLayer;\n                uniform int depthLayer;\n                in vec2 uv;\n                layout (location = 0) out vec4 color;\n                void main()\n                {\n                    color = texture(colorMap, vec3(uv, colorLayer));\n                    gl_FragDepth = texture(depthMap, vec3(uv, depthLayer)).r;\n                }";

/// The two image effects that copies are made with. Each is compiled the
/// first time that a copy needs it and kept from then on.
#[derive(Clone, Copy, Debug, PartialEq, Eq)]
pub struct CopyEffects {
    /// The effect that copies from single textures.
    pub copy: ImageEffect,
    /// Whether the command that compiles `copy` has been issued.
    pub copy_created: bool,
    /// The effect that copies from a layer of a stack of textures.
    pub copy_array: ImageEffect,
    /// Whether the command that compiles `copy_array` has been issued.
    pub copy_array_created: bool,
}

impl CopyEffects {
    /// What asking for the copy effect issues: its compilation, the first
    /// time.
    pub open spec fn spec_get_copy_effect(self) -> Seq<Command> {
        if self.copy_created {
            Seq::empty()
        } else {
            seq![Command::CreateImageEffect { effect: self.copy.program, source: EffectSource::Copy }]
        }
    }

    /// What asking for the copy effect for stacks issues: its compilation,
    /// the first time.
    pub open spec fn spec_get_copy_array_effect(self) -> Seq<Command> {
        if self.copy_array_created {
            Seq::empty()
        } else {
            seq![
                Command::CreateImageEffect {
                    effect: self.copy_array.program,
                    source: EffectSource::CopyArray,
                },
            ]
        }
    }

    /// The effects once the copy effect has been asked for.
    pub open spec fn with_copy_effect(self) -> CopyEffects {
        CopyEffects { copy_created: true, ..self }
    }

    /// The effects once the copy effect for stacks has been asked for.
    pub open spec fn with_copy_array_effect(self) -> CopyEffects {
        CopyEffects { copy_array_created: true, ..self }
    }

    /// The two effects under the given names, neither compiled yet.
    pub fn new(copy: Program, copy_array: Program) -> (effects: CopyEffects)
        ensures
            effects == (CopyEffects {
                copy: ImageEffect { program: copy },
                copy_created: false,
                copy_array: ImageEffect { program: copy_array },
                copy_array_created: false,
            }),
    {
        CopyEffects {
            copy: ImageEffect { program: copy },
            copy_created: false,
            copy_array: ImageEffect { program: copy_array },
            copy_array_created: false,
        }
    }

    /// The effect that copies from single textures, with the command that
    /// compiles it if this is the first time that it is asked for.
    pub fn get_copy_effect(&mut self) -> (got: (ImageEffect, Vec<Command>))
        ensures
            got.0 == old(self).copy,
            got.1@ == old(self).spec_get_copy_effect(),
            *final(self) == old(self).with_copy_effect(),
    {
        let mut commands: Vec<Command> = Vec::new();
        if !self.copy_created {
            commands.push(
                Command::CreateImageEffect { effect: self.copy.program, source: EffectSource::Copy },
            );
            self.copy_created = true;
        }
        (self.copy, commands)
    }

    /// The effect that copies from a layer of a stack of textures, with the
    /// command that compiles it if this is the first time that it is asked
    /// for.
    pub fn get_copy_array_effect(&mut self) -> (got: (ImageEffect, Vec<Command>))
        ensures
            got.0 == old(self).copy_array,
            got.1@ == old(self).spec_get_copy_array_effect(),
            *final(self) == old(self).with_copy_array_effect(),
    {
        let mut commands: Vec<Command> = Vec::new();
        if !self.copy_array_created {
            commands.push(
                Command::CreateImageEffect {
                    effect: self.copy_array.program,
                    source: EffectSource::CopyArray,
                },
            );
            self.copy_array_created = true;
        }
        (self.copy_array, commands)
    }
}

/// The parts of a render target that a copy takes.
#[derive(Clone, Copy, Debug, PartialEq, Eq, Structural)]
pub enum Channels {
    ColorAndDepth,
    Color,
    Depth,
}

impl Channels {
    /// Whether the colour is taken.
    pub open spec fn color(self) -> bool {
        self != Channels::Depth
    }

    /// Whether the depth is taken.
    pub open spec fn depth(self) -> bool {
        self != Channels::Color
    }

    /// What the copy writes: exactly what it takes.
    pub open spec fn write_mask(self) -> WriteMask {
        match self {
            Channels::ColorAndDepth => WriteMask::spec_color_and_depth(),
            Channels::Color => WriteMask::spec_color(),
            Channels::Depth => WriteMask::spec_depth(),
        }
    }

    /// The state under which a copy is drawn: back faces are thrown away,
    /// every fragment passes the depth test, and only what is copied is
    /// written.
    pub open spec fn render_states(self) -> RenderStates {
        RenderStates {
            write_mask: self.write_mask(),
            depth_test: DepthTestType::Always,
            cull: CullType::Back,
        }
    }

    /// The message of the error for a render target that lacks a texture
    /// that the copy needs.
    pub open spec fn message(self) -> Seq<char> {
        match self {
            Channels::ColorAndDepth => "Cannot copy depth and color when the render target does not have a color and depth texture."@,
            Channels::Color => "Cannot copy color when the render target does not have a color texture."@,
            Channels::Depth => "Cannot copy depth when the render target does not have a depth texture."@,
        }
    }

    /// The error for a render target that lacks a texture that the copy
    /// needs.
    pub open spec fn failure(self) -> RecordingView {
        RecordingView::failed(
            Seq::empty(),
            ErrorView::FailedToCopyFromRenderTarget { message: self.message() },
        )
    }

    pub(crate) fn takes_color(self) -> (taken: bool)
        ensures
            taken == self.color(),
    {
        match self {
            Channels::Depth => false,
            _ => true,
        }
    }

    pub(crate) fn takes_depth(self) -> (taken: bool)
        ensures
            taken == self.depth(),
    {
        match self {
            Channels::Color => false,
            _ => true,
        }
    }

    pub(crate) fn states(self) -> (states: RenderStates)
        ensures
            states == self.render_states(),
    {
        RenderStates {
            write_mask: match self {
                Channels::ColorAndDepth => WriteMask::default(),
                Channels::Color => WriteMask::color(),
                Channels::Depth => WriteMask::depth(),
            },
            depth_test: DepthTestType::Always,
            cull: CullType::Back,
        }
    }

    pub(crate) fn refusal(self) -> (recording: Recording)
        ensures
            recording@ == self.failure(),
    {
        let message = match self {
            Channels::ColorAndDepth => String::from_str(
                "Cannot copy depth and color when the render target does not have a color and depth texture.",
            ),
            Channels::Color => String::from_str(
                "Cannot copy color when the render target does not have a color texture.",
            ),
            Channels::Depth => String::from_str(
                "Cannot copy depth when the render target does not have a depth texture.",
            ),
        };
        Recording::failed(Error::FailedToCopyFromRenderTarget { message })
    }
}

/// What handing textures to a copy effect and running it issues: the colour
/// texture under `colorMap` where colour is copied, the depth texture under
/// `depthMap` where depth is copied, and the run over the viewport.
pub open spec fn spec_copy_commands(
    effect: ImageEffect,
    color: Option<Texture>,
    depth: Option<Texture>,
    channels: Channels,
    viewport: Viewport,
) -> Seq<Command> {
    (match color {
        Some(texture) => seq![
            Command::UseTexture { program: effect.program, texture, name: Name::ColorMap },
        ],
        None => Seq::empty(),
    }) + (match depth {
        Some(texture) => seq![
            Command::UseTexture { program: effect.program, texture, name: Name::DepthMap },
        ],
        None => Seq::empty(),
    }) + seq![
        Command::Apply {
            effect: effect.program,
            render_states: channels.render_states(),
            viewport,
        },
    ]
}

pub(crate) fn copy_commands(
    effect: ImageEffect,
    color: Option<Texture>,
    depth: Option<Texture>,
    channels: Channels,
    viewport: Viewport,
) -> (commands: Vec<Command>)
    ensures
        commands@ == spec_copy_commands(effect, color, depth, channels, viewport),
{
    let mut commands: Vec<Command> = Vec::new();
    if let Some(texture) = color {
        commands.push(Command::UseTexture { program: effect.program, texture, name: Name::ColorMap });
    }
    if let Some(texture) = depth {
        commands.push(Command::UseTexture { program: effect.program, texture, name: Name::DepthMap });
    }
    commands.push(
        Command::Apply { effect: effect.program, render_states: channels.states(), viewport },
    );
    commands
}

/// What handing a copy effect for stacks its textures and layers and running
/// it issues: the colour stack under `colorMap` where colour is copied, the
/// depth stack under `depthMap` where depth is copied, then the layer of
/// each under `colorLayer` and `depthLayer`, and the run over the viewport.
pub open spec fn spec_copy_array_commands(
    effect: ImageEffect,
    color: Option<(Texture, usize)>,
    depth: Option<(Texture, usize)>,
    channels: Channels,
    viewport: Viewport,
) -> Seq<Command> {
    (match color {
        Some((texture, layer)) => seq![
            Command::UseTexture { program: effect.program, texture, name: Name::ColorMap },
        ],
        None => Seq::empty(),
    }) + (match depth {
        Some((texture, layer)) => seq![
            Command::UseTexture { program: effect.program, texture, name: Name::DepthMap },
        ],
        None => Seq::empty(),
    }) + (match color {
        Some((texture, layer)) => seq![
            Command::UseUniformInt {
                program: effect.program,
                name: Name::ColorLayer,
                value: layer as i32,
            },
        ],
        None => Seq::empty(),
    }) + (match depth {
        Some((texture, layer)) => seq![
            Command::UseUniformInt {
                program: effect.program,
                name: Name::DepthLayer,
                value: layer as i32,
            },
        ],
        None => Seq::empty(),
    }) + seq![
        Command::Apply {
            effect: effect.program,
            render_states: channels.render_states(),
            viewport,
        },
    ]
}

pub(crate) fn copy_array_commands(
    effect: ImageEffect,
    color: Option<(Texture, usize)>,
    depth: Option<(Texture, usize)>,
    channels: Channels,
    viewport: Viewport,
) -> (commands: Vec<Command>)
    ensures
        commands@ == spec_copy_array_commands(effect, color, depth, channels, viewport),
{
    let mut commands: Vec<Command> = Vec::new();
    if let Some((texture, _)) = color {
        commands.push(Command::UseTexture { program: effect.program, texture, name: Name::ColorMap });
    }
    if let Some((texture, _)) = depth {
        commands.push(Command::UseTexture { program: effect.program, texture, name: Name::DepthMap });
    }
    if let Some((_, layer)) = color {
        commands.push(
            Command::UseUniformInt {
                program: effect.program,
                name: Name::ColorLayer,
                value: #[verifier::truncate]
                (layer as i32),
            },
        );
    }
    if let Some((_, layer)) = depth {
        commands.push(
            Command::UseUniformInt {
                program: effect.program,
                name: Name::DepthLayer,
                value: #[verifier::truncate]
                (layer as i32),
            },
        );
    }
    commands.push(
        Command::Apply { effect: effect.program, render_states: channels.states(), viewport },
    );
    commands
}

/// A copy effect is compiled once: after it has been asked for, asking for
/// it again issues nothing and changes nothing.
pub proof fn lemma_copy_effects_are_compiled_once(effects: CopyEffects)
    ensures
        effects.with_copy_effect().spec_get_copy_effect() == Seq::<Command>::empty(),
        effects.with_copy_array_effect().spec_get_copy_array_effect() == Seq::<Command>::empty(),
        effects.with_copy_effect().with_copy_effect() == effects.with_copy_effect(),
        effects.with_copy_array_effect().with_copy_array_effect()
            == effects.with_copy_array_effect(),
        effects.with_copy_effect().spec_get_copy_array_effect()
            == effects.spec_get_copy_array_effect(),
        effects.with_copy_array_effect().spec_get_copy_effect() == effects.spec_get_copy_effect(),
{
}

} // verus!
