//! Render targets whose textures are stacks, of which single layers are
//! rendered into.

use vstd::prelude::*;
use crate::context::consts::DRAW_FRAMEBUFFER;
use crate::context::draw_target_after;
use crate::context::keeps_draw_target;
use crate::context::lemma_draw_target_is_the_one_bound;
use crate::context::lemma_keeping_draw_target_adds_up;
use crate::context::Command;
use crate::context::Framebuffer;
use crate::context::Recording;
use crate::context::RecordingView;
use crate::context::Texture;
use crate::copy::copy_array_commands;
use crate::copy::spec_copy_array_commands;
use crate::copy::Channels;
use crate::copy::CopyEffects;
use crate::effect::ImageEffect;
use crate::error::Error;
use crate::render_target::clear;
use crate::render_target::lemma_clear_keeps_draw_target;
use crate::render_target::new_framebuffer;
use crate::render_target::spec_clear;
use crate::render_target::spec_no_framebuffer;
use crate::render_target::ClearState;
use crate::render_target::RenderTarget;
use crate::render_target::Screen;
use crate::states::Viewport;
use crate::texture::ColorTargetTexture2DArray;
use crate::texture::DepthTargetTexture2DArray;

verus! {

/// Same as a render target, except that it renders into layers of a stack of
/// colour textures and of a stack of depth textures.
#[derive(Debug, PartialEq, Eq)]
pub struct RenderTargetArray<'a, 'b> {
    pub id: Framebuffer,
    pub color_texture: Option<&'a ColorTargetTexture2DArray>,
    pub depth_texture: Option<&'b DepthTargetTexture2DArray>,
}

impl<'a, 'b> RenderTargetArray<'a, 'b> {
    /// The name of the stack of colour textures, where the target has one.
    pub open spec fn color(&self) -> Option<Texture> {
        match self.color_texture {
            Some(texture) => Some(texture.texture),
            None => None,
        }
    }

    /// The name of the stack of depth textures, where the target has one.
    pub open spec fn depth(&self) -> Option<Texture> {
        match self.depth_texture {
            Some(texture) => Some(texture.texture),
            None => None,
        }
    }

    /// Whether the target has the textures that a copy of the given parts
    /// reads.
    pub open spec fn has(&self, channels: Channels) -> bool {
        &&& channels.color() ==> self.color_texture is Some
        &&& channels.depth() ==> self.depth_texture is Some
    }

    /// What binding layers of the target issues: its framebuffer becomes the
    /// one that is drawn to; where the target has colour textures and colour
    /// layers are given, as many draw buffers are declared as there are
    /// layers, and the layer at each place of the list becomes the colour
    /// target of the channel of that place; where the target has depth
    /// textures and a depth layer is given, that layer becomes the depth
    /// target.
    pub open spec fn spec_bind(
        &self,
        color_layers: Option<Seq<usize>>,
        depth_layer: Option<usize>,
    ) -> Seq<Command> {
        seq![Command::BindFramebuffer { target: DRAW_FRAMEBUFFER, framebuffer: Some(self.id) }] + (
        match (self.color(), color_layers) {
            (Some(texture), Some(layers)) => seq![
                Command::DrawBuffers { count: layers.len() as usize },
            ] + Seq::new(
                layers.len(),
                |channel: int|
                    Command::BindLayerAsColorTarget {
                        texture,
                        layer: layers[channel],
                        channel: channel as usize,
                    },
            ),
            _ => Seq::empty(),
        }) + (match (self.depth(), depth_layer) {
            (Some(texture), Some(layer)) => seq![Command::BindLayerAsDepthTarget { texture, layer }],
            _ => Seq::empty(),
        })
    }

    /// What follows a rendering into the target: the smaller levels of the
    /// colour textures are filled in.
    pub open spec fn spec_finish(&self) -> Seq<Command> {
        match self.color() {
            Some(texture) => seq![Command::GenerateMipMaps { texture }],
            None => Seq::empty(),
        }
    }

    /// What writing to layers of the target issues: the layers are bound; of
    /// the clear state, what the target has textures for is cleared; then
    /// come the commands of the rendering itself and, where it succeeded,
    /// what follows a rendering.
    pub open spec fn spec_write(
        &self,
        clear_state: ClearState,
        color_layers: Seq<usize>,
        depth_layer: usize,
        rendering: RecordingView,
    ) -> RecordingView {
        RecordingView::done(
            self.spec_bind(Some(color_layers), Some(depth_layer)) + spec_clear(
                clear_state.restricted(self.color_texture is Some, self.depth_texture is Some),
            ),
        ).followed_by(rendering).followed_by(RecordingView::done(self.spec_finish()))
    }

    /// What handing the copy effect the given layers and running it issues.
    pub open spec fn spec_copy_commands(
        &self,
        effects: CopyEffects,
        channels: Channels,
        color_layer: usize,
        depth_layer: usize,
        viewport: Viewport,
    ) -> Seq<Command> {
        spec_copy_array_commands(
            effects.copy_array,
            if channels.color() && self.color() is Some {
                Some((self.color()->0, color_layer))
            } else {
                None
            },
            if channels.depth() && self.depth() is Some {
                Some((self.depth()->0, depth_layer))
            } else {
                None
            },
            channels,
            viewport,
        )
    }

    /// The rendering that copies the given layers of the given parts of the
    /// target.
    pub open spec fn spec_copy_rendering(
        &self,
        effects: CopyEffects,
        channels: Channels,
        color_layer: usize,
        depth_layer: usize,
        viewport: Viewport,
    ) -> RecordingView {
        RecordingView::done(
            effects.spec_get_copy_array_effect() + self.spec_copy_commands(
                effects,
                channels,
                color_layer,
                depth_layer,
                viewport,
            ),
        )
    }

    /// What copying the given layers of the given parts of the target to the
    /// screen issues: nothing but the error where the target lacks the
    /// textures for one of them; else a write to the screen that clears
    /// nothing and renders the copy.
    pub open spec fn spec_copy_to_screen(
        &self,
        effects: CopyEffects,
        channels: Channels,
        color_layer: usize,
        depth_layer: usize,
        viewport: Viewport,
    ) -> RecordingView {
        if !self.has(channels) {
            channels.failure()
        } else {
            Screen::spec_write(
                ClearState::spec_none(),
                self.spec_copy_rendering(effects, channels, color_layer, depth_layer, viewport),
            )
        }
    }

    /// What copying a layer of the colour textures to the screen issues:
    /// nothing but the error where the target has no colour textures; else
    /// the copy effect is asked for first, and then comes a write to the
    /// screen that clears nothing and renders the copy.
    pub open spec fn spec_copy_color_to_screen(
        &self,
        effects: CopyEffects,
        color_layer: usize,
        viewport: Viewport,
    ) -> RecordingView {
        if !self.has(Channels::Color) {
            Channels::Color.failure()
        } else {
            RecordingView::done(effects.spec_get_copy_array_effect()).followed_by(
                Screen::spec_write(
                    ClearState::spec_none(),
                    RecordingView::done(
                        self.spec_copy_commands(effects, Channels::Color, color_layer, 0, viewport),
                    ),
                ),
            )
        }
    }

    /// What copying the given layers of the given parts of the target to a
    /// render target issues: nothing but the error where either target lacks
    /// a texture for one of them; else a write to the other target that
    /// clears nothing and renders the copy.
    pub open spec fn spec_copy(
        &self,
        effects: CopyEffects,
        channels: Channels,
        color_layer: usize,
        depth_layer: usize,
        other: &RenderTarget,
        viewport: Viewport,
    ) -> RecordingView {
        if !self.has(channels) || !other.has(channels) {
            channels.failure()
        } else {
            other.spec_write(
                ClearState::spec_none(),
                self.spec_copy_rendering(effects, channels, color_layer, depth_layer, viewport),
            )
        }
    }

    /// Constructs a new render target array that enables rendering into the
    /// given stacks of colour and depth textures, behind the framebuffer
    /// that the device gave. Where it gave none, the error says so.
    pub fn new(
        framebuffer: Option<Framebuffer>,
        color_texture: &'a ColorTargetTexture2DArray,
        depth_texture: &'b DepthTargetTexture2DArray,
    ) -> (made: Result<Self, Error>)
        ensures
            match framebuffer {
                Some(id) => made matches Ok(target) && target.id == id && target.color_texture
                    == Some(color_texture) && target.depth_texture == Some(depth_texture),
                None => made matches Err(error) && error@ == spec_no_framebuffer(),
            },
    {
        match new_framebuffer(framebuffer) {
            Ok(id) => Ok(
                Self { id, color_texture: Some(color_texture), depth_texture: Some(depth_texture) },
            ),
            Err(error) => Err(error),
        }
    }

    /// Constructs a new render target array that enables rendering into the
    /// given stack of colour textures, behind the framebuffer that the
    /// device gave. Where it gave none, the error says so.
    pub fn new_color(
        framebuffer: Option<Framebuffer>,
        color_texture: &'a ColorTargetTexture2DArray,
    ) -> (made: Result<Self, Error>)
        ensures
            match framebuffer {
                Some(id) => made matches Ok(target) && target.id == id && target.color_texture
                    == Some(color_texture) && target.depth_texture is None,
                None => made matches Err(error) && error@ == spec_no_framebuffer(),
            },
    {
        match new_framebuffer(framebuffer) {
            Ok(id) => Ok(Self { id, color_texture: Some(color_texture), depth_texture: None }),
            Err(error) => Err(error),
        }
    }

    /// Constructs a new render target array that enables rendering into the
    /// given stack of depth textures, behind the framebuffer that the device
    /// gave. Where it gave none, the error says so.
    pub fn new_depth(
        framebuffer: Option<Framebuffer>,
        depth_texture: &'b DepthTargetTexture2DArray,
    ) -> (made: Result<Self, Error>)
        ensures
            match framebuffer {
                Some(id) => made matches Ok(target) && target.id == id && target.color_texture is None
                    && target.depth_texture == Some(depth_texture),
                None => made matches Err(error) && error@ == spec_no_framebuffer(),
            },
    {
        match new_framebuffer(framebuffer) {
            Ok(id) => Ok(Self { id, color_texture: None, depth_texture: Some(depth_texture) }),
            Err(error) => Err(error),
        }
    }

    /// The commands that make the given layers of the target the ones that
    /// are drawn to.
    pub fn bind(&self, color_layers: Option<&[usize]>, depth_layer: Option<usize>) -> (commands:
        Vec<Command>)
        ensures
            commands@ == self.spec_bind(
                match color_layers {
                    Some(layers) => Some(layers@),
                    None => None,
                },
                depth_layer,
            ),
    {
        let mut commands: Vec<Command> = Vec::new();
        commands.push(
            Command::BindFramebuffer { target: DRAW_FRAMEBUFFER, framebuffer: Some(self.id) },
        );
        if let Some(color_texture) = self.color_texture {
            if let Some(color_layers) = color_layers {
                commands.push(Command::DrawBuffers { count: color_layers.len() });
                let ghost head = commands@;
                let mut channel: usize = 0;
                while channel < color_layers.len()
                    invariant
                        channel <= color_layers.len(),
                        commands@ == head + Seq::new(
                            channel as nat,
                            |c: int|
                                Command::BindLayerAsColorTarget {
                                    texture: color_texture.texture,
                                    layer: color_layers@[c],
                                    channel: c as usize,
                                },
                        ),
                    decreases color_layers.len() - channel,
                {
                    commands.push(
                        Command::BindLayerAsColorTarget {
                            texture: color_texture.texture,
                            layer: color_layers[channel],
                            channel,
                        },
                    );
                    channel = channel + 1;
                }
            }
        }
        if let Some(depth_texture) = self.depth_texture {
            if let Some(depth_layer) = depth_layer {
                commands.push(
                    Command::BindLayerAsDepthTarget {
                        texture: depth_texture.texture,
                        layer: depth_layer,
                    },
                );
            }
        }
        commands
    }

    /// Wraps a finished rendering in what writing to layers of the target
    /// issues before and after it.
    pub fn write_recording(
        &self,
        clear_state: &ClearState,
        color_layers: &[usize],
        depth_layer: usize,
        rendering: Recording,
    ) -> (recording: Recording)
        ensures
            recording@ == self.spec_write(*clear_state, color_layers@, depth_layer, rendering@),
    {
        let mut commands = self.bind(Some(color_layers), Some(depth_layer));
        let mut cleared = clear(
            &ClearState {
                red: if self.color_texture.is_some() {
                    clear_state.red
                } else {
                    None
                },
                green: if self.color_texture.is_some() {
                    clear_state.green
                } else {
                    None
                },
                blue: if self.color_texture.is_some() {
                    clear_state.blue
                } else {
                    None
                },
                alpha: if self.color_texture.is_some() {
                    clear_state.alpha
                } else {
                    None
                },
                depth: if self.depth_texture.is_some() {
                    clear_state.depth
                } else {
                    None
                },
            },
        );
        commands.append(&mut cleared);
        let mut finish: Vec<Command> = Vec::new();
        if let Some(color_texture) = self.color_texture {
            finish.push(Command::GenerateMipMaps { texture: color_texture.texture });
        }
        Recording::done(commands).followed_by(rendering).followed_by(Recording::done(finish))
    }

    /// Renders whatever is rendered in the `render` closure into the
    /// textures defined at construction and defined by the input parameters
    /// `color_layers` and `depth_layer`. Output at location *i* defined in
    /// the fragment shader is written to the colour texture layer at the
    /// *ith* index in `color_layers`. The depth is written to the depth
    /// texture defined by `depth_layer`. Before writing, the textures are
    /// cleared based on the given clear state.
    pub fn write<F: FnOnce() -> Recording>(
        &self,
        clear_state: &ClearState,
        color_layers: &[usize],
        depth_layer: usize,
        render: F,
    ) -> (recording: Recording)
        requires
            render.requires(()),
        ensures
            exists|rendering: Recording|
                render.ensures((), rendering) && recording@ == self.spec_write(
                    *clear_state,
                    color_layers@,
                    depth_layer,
                    rendering@,
                ),
    {
        let rendering = render();
        self.write_recording(clear_state, color_layers, depth_layer, rendering)
    }

    fn holds(&self, channels: Channels) -> (held: bool)
        ensures
            held == self.has(channels),
    {
        (!channels.takes_color() || self.color_texture.is_some()) && (!channels.takes_depth()
            || self.depth_texture.is_some())
    }

    fn copy_commands(
        &self,
        effect: ImageEffect,
        channels: Channels,
        color_layer: usize,
        depth_layer: usize,
        viewport: Viewport,
    ) -> (commands: Vec<Command>)
        requires
            self.has(channels),
        ensures
            commands@ == spec_copy_array_commands(
                effect,
                if channels.color() && self.color() is Some {
                    Some((self.color()->0, color_layer))
                } else {
                    None
                },
                if channels.depth() && self.depth() is Some {
                    Some((self.depth()->0, depth_layer))
                } else {
                    None
                },
                channels,
                viewport,
            ),
    {
        let color = if channels.takes_color() {
            Some((self.color_texture.unwrap().texture, color_layer))
        } else {
            None
        };
        let depth = if channels.takes_depth() {
            Some((self.depth_texture.unwrap().texture, depth_layer))
        } else {
            None
        };
        copy_array_commands(effect, color, depth, channels, viewport)
    }

    fn copy_rendering(
        &self,
        effects: &mut CopyEffects,
        channels: Channels,
        color_layer: usize,
        depth_layer: usize,
        viewport: Viewport,
    ) -> (rendering: Recording)
        requires
            self.has(channels),
        ensures
            rendering@ == self.spec_copy_rendering(
                *old(effects),
                channels,
                color_layer,
                depth_layer,
                viewport,
            ),
            *final(effects) == old(effects).with_copy_array_effect(),
    {
        let (effect, mut commands) = effects.get_copy_array_effect();
        let mut copy = self.copy_commands(effect, channels, color_layer, depth_layer, viewport);
        commands.append(&mut copy);
        Recording::done(commands)
    }

    /// Copies the given layers of the given parts of this render target
    /// array to the screen, with the copy effect for stacks of `effects`.
    pub fn copy_channels_to_screen(
        &self,
        effects: &mut CopyEffects,
        channels: Channels,
        color_layer: usize,
        depth_layer: usize,
        viewport: Viewport,
    ) -> (recording: Recording)
        ensures
            recording@ == self.spec_copy_to_screen(
                *old(effects),
                channels,
                color_layer,
                depth_layer,
                viewport,
            ),
            *final(effects) == if self.has(channels) {
                old(effects).with_copy_array_effect()
            } else {
                *old(effects)
            },
    {
        if !self.holds(channels) {
            return channels.refusal();
        }
        let rendering = self.copy_rendering(effects, channels, color_layer, depth_layer, viewport);
        Screen::write_recording(&ClearState::none(), rendering)
    }

    /// Copies the given layers of the given parts of this render target
    /// array to a render target, with the copy effect for stacks of
    /// `effects`.
    pub fn copy_channels(
        &self,
        effects: &mut CopyEffects,
        channels: Channels,
        color_layer: usize,
        depth_layer: usize,
        other: &RenderTarget,
        viewport: Viewport,
    ) -> (recording: Recording)
        ensures
            recording@ == self.spec_copy(
                *old(effects),
                channels,
                color_layer,
                depth_layer,
                other,
                viewport,
            ),
            *final(effects) == if self.has(channels) && other.has(channels) {
                old(effects).with_copy_array_effect()
            } else {
                *old(effects)
            },
    {
        if !self.holds(channels) || !other.holds(channels) {
            return channels.refusal();
        }
        let rendering = self.copy_rendering(effects, channels, color_layer, depth_layer, viewport);
        other.write_recording(&ClearState::none(), rendering)
    }

    /// Copies the given layers of the colour and depth textures in this
    /// render target array to the screen.
    ///
    /// # Errors
    /// Will return an error if this render target array is not constructed
    /// with both colour and depth textures.
    pub fn copy_to_screen(
        &self,
        effects: &mut CopyEffects,
        color_layer: usize,
        depth_layer: usize,
        viewport: Viewport,
    ) -> (recording: Recording)
        ensures
            recording@ == self.spec_copy_to_screen(
                *old(effects),
                Channels::ColorAndDepth,
                color_layer,
                depth_layer,
                viewport,
            ),
            *final(effects) == if self.has(Channels::ColorAndDepth) {
                old(effects).with_copy_array_effect()
            } else {
                *old(effects)
            },
    {
        self.copy_channels_to_screen(
            effects,
            Channels::ColorAndDepth,
            color_layer,
            depth_layer,
            viewport,
        )
    }

    /// Copies the given layer of the colour textures in this render target
    /// array to the screen.
    ///
    /// # Errors
    /// Will return an error if this render target array is not constructed
    /// with colour textures.
    pub fn copy_color_to_screen(
        &self,
        effects: &mut CopyEffects,
        color_layer: usize,
        viewport: Viewport,
    ) -> (recording: Recording)
        ensures
            recording@ == self.spec_copy_color_to_screen(*old(effects), color_layer, viewport),
            *final(effects) == if self.has(Channels::Color) {
                old(effects).with_copy_array_effect()
            } else {
                *old(effects)
            },
    {
        if self.color_texture.is_none() {
            return Channels::Color.refusal();
        }
        let (effect, created) = effects.get_copy_array_effect();
        let copy = self.copy_commands(effect, Channels::Color, color_layer, 0, viewport);
        Recording::done(created).followed_by(
            Screen::write_recording(&ClearState::none(), Recording::done(copy)),
        )
    }

    /// Copies the given layer of the depth textures in this render target
    /// array to the screen.
    ///
    /// # Errors
    /// Will return an error if this render target array is not constructed
    /// with depth textures.
    pub fn copy_depth_to_screen(
        &self,
        effects: &mut CopyEffects,
        depth_layer: usize,
        viewport: Viewport,
    ) -> (recording: Recording)
        ensures
            recording@ == self.spec_copy_to_screen(
                *old(effects),
                Channels::Depth,
                0,
                depth_layer,
                viewport,
            ),
            *final(effects) == if self.has(Channels::Depth) {
                old(effects).with_copy_array_effect()
            } else {
                *old(effects)
            },
    {
        self.copy_channels_to_screen(effects, Channels::Depth, 0, depth_layer, viewport)
    }

    /// Copies the given layers of the colour and depth textures in this
    /// render target array to a render target.
    ///
    /// # Errors
    /// Will return an error if either target is not constructed with both
    /// colour and depth textures.
    pub fn copy(
        &self,
        effects: &mut CopyEffects,
        color_layer: usize,
        depth_layer: usize,
        other: &RenderTarget,
        viewport: Viewport,
    ) -> (recording: Recording)
        ensures
            recording@ == self.spec_copy(
                *old(effects),
                Channels::ColorAndDepth,
                color_layer,
                depth_layer,
                other,
                viewport,
            ),
            *final(effects) == if self.has(Channels::ColorAndDepth) && other.has(
                Channels::ColorAndDepth,
            ) {
                old(effects).with_copy_array_effect()
            } else {
                *old(effects)
            },
    {
        self.copy_channels(
            effects,
            Channels::ColorAndDepth,
            color_layer,
            depth_layer,
            other,
            viewport,
        )
    }

    /// Copies the given layer of the colour textures in this render target
    /// array to a render target.
    ///
    /// # Errors
    /// Will return an error if either target is not constructed with a
    /// colour texture.
    pub fn copy_color(
        &self,
        effects: &mut CopyEffects,
        color_layer: usize,
        other: &RenderTarget,
        viewport: Viewport,
    ) -> (recording: Recording)
        ensures
            recording@ == self.spec_copy(
                *old(effects),
                Channels::Color,
                color_layer,
                0,
                other,
                viewport,
            ),
            *final(effects) == if self.has(Channels::Color) && other.has(Channels::Color) {
                old(effects).with_copy_array_effect()
            } else {
                *old(effects)
            },
    {
        self.copy_channels(effects, Channels::Color, color_layer, 0, other, viewport)
    }

    /// Copies the given layer of the depth textures in this render target
    /// array to a render target.
    ///
    /// # Errors
    /// Will return an error if either target is not constructed with a depth
    /// texture.
    pub fn copy_depth(
        &self,
        effects: &mut CopyEffects,
        depth_layer: usize,
        other: &RenderTarget,
        viewport: Viewport,
    ) -> (recording: Recording)
        ensures
            recording@ == self.spec_copy(
                *old(effects),
                Channels::Depth,
                0,
                depth_layer,
                other,
                viewport,
            ),
            *final(effects) == if self.has(Channels::Depth) && other.has(Channels::Depth) {
                old(effects).with_copy_array_effect()
            } else {
                *old(effects)
            },
    {
        self.copy_channels(effects, Channels::Depth, 0, depth_layer, other, viewport)
    }

    /// The command that frees the framebuffer of the target. The target is
    /// used up.
    pub fn delete(self) -> (command: Command)
        ensures
            command == (Command::DeleteFramebuffer { framebuffer: self.id }),
    {
        Command::DeleteFramebuffer { framebuffer: self.id }
    }
}

/// What is rendered in a write to layers of a render target array is drawn
/// to the render target array: at every point of a rendering that does not
/// itself change where drawing goes, drawing goes to the framebuffer of the
/// target, wherever it went before the write.
pub proof fn lemma_a_write_to_layers_draws_to_the_target(
    target: RenderTargetArray,
    clear_state: ClearState,
    color_layers: Seq<usize>,
    depth_layer: usize,
    rendering: RecordingView,
    before: Option<Framebuffer>,
    at: int,
)
    requires
        keeps_draw_target(rendering.commands),
        0 <= at <= rendering.commands.len(),
    ensures
        draw_target_after(
            target.spec_write(clear_state, color_layers, depth_layer, rendering).commands.take(
                target.spec_bind(Some(color_layers), Some(depth_layer)).len() + spec_clear(
                    clear_state.restricted(
                        target.color_texture is Some,
                        target.depth_texture is Some,
                    ),
                ).len() + at,
            ),
            before,
        ) == Some(target.id),
{
    let masked = clear_state.restricted(
        target.color_texture is Some,
        target.depth_texture is Some,
    );
    let cleared = spec_clear(masked);
    let rendered = rendering.commands.take(at);
    let bound = seq![
        Command::BindFramebuffer { target: DRAW_FRAMEBUFFER, framebuffer: Some(target.id) },
    ];
    let all = target.spec_bind(Some(color_layers), Some(depth_layer));
    let attached = all.subrange(1, all.len() as int);
    lemma_clear_keeps_draw_target(masked);
    lemma_keeping_draw_target_adds_up(attached, cleared);
    lemma_keeping_draw_target_adds_up(attached + cleared, rendered);
    lemma_draw_target_is_the_one_bound(Some(target.id), attached + cleared + rendered, before);
    assert(target.spec_write(clear_state, color_layers, depth_layer, rendering).commands.take(
        all.len() + cleared.len() + at,
    ) =~= bound + (attached + cleared + rendered));
}

} // verus!
