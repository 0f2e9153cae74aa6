//! Where rendering goes: the screen, or textures behind a framebuffer.

use vstd::prelude::*;
use vstd::string::*;
use crate::context::consts::COLOR_ATTACHMENT0;
use crate::context::consts::COLOR_BUFFER_BIT;
use crate::context::consts::DEPTH_BUFFER_BIT;
use crate::context::consts::DEPTH_COMPONENT;
use crate::context::consts::DRAW_FRAMEBUFFER;
use crate::context::consts::FLOAT;
use crate::context::consts::READ_FRAMEBUFFER;
use crate::context::consts::RGB;
use crate::context::consts::UNSIGNED_BYTE;
use crate::context::draw_target_after;
use crate::context::keeps_draw_target;
use crate::context::lemma_draw_target_is_the_one_bound;
use crate::context::lemma_keeping_draw_target_adds_up;
use crate::context::Command;
use crate::context::Framebuffer;
use crate::context::Recording;
use crate::context::RecordingView;
use crate::context::Texture;
use crate::copy::copy_commands;
use crate::copy::spec_copy_commands;
use crate::copy::Channels;
use crate::copy::CopyEffects;
use crate::error::Error;
use crate::error::ErrorView;
use crate::math::ONE;
use crate::math::ZERO;
use crate::states::Viewport;
use crate::states::WriteMask;
use crate::texture::ColorTargetTexture2D;
use crate::texture::DepthTargetTexture2D;

verus! {

/// Which channels (red, green, blue, alpha and depth) to clear when starting
/// to write to a render target or the screen, and the values they are set
/// to. A value is the 32-bit pattern of a number between zero and one.
#[derive(Clone, Copy, Debug, PartialEq, Eq, Structural)]
pub struct ClearState {
    pub red: Option<u32>,
    pub green: Option<u32>,
    pub blue: Option<u32>,
    pub alpha: Option<u32>,
    pub depth: Option<u32>,
}

impl ClearState {
    /// Nothing will be cleared.
    pub open spec fn spec_none() -> ClearState {
        ClearState { red: None, green: None, blue: None, alpha: None, depth: None }
    }

    /// Colour is cleared to opaque black, depth to one.
    pub open spec fn spec_default() -> ClearState {
        ClearState {
            red: Some(ZERO),
            green: Some(ZERO),
            blue: Some(ZERO),
            alpha: Some(ONE),
            depth: Some(ONE),
        }
    }

    /// Whether any of the four colour channels is cleared.
    pub open spec fn clears_color(self) -> bool {
        self.red is Some || self.green is Some || self.blue is Some || self.alpha is Some
    }

    /// The channels that the state clears.
    pub open spec fn write_mask(self) -> WriteMask {
        WriteMask {
            red: self.red is Some,
            green: self.green is Some,
            blue: self.blue is Some,
            alpha: self.alpha is Some,
            depth: self.depth is Some,
        }
    }

    /// The buffers that the state has the device fill: colour and depth
    /// where both are cleared, colour where only colour is, and depth
    /// otherwise.
    pub open spec fn buffer_bits(self) -> u32 {
        if self.clears_color() && self.depth is Some {
            COLOR_BUFFER_BIT | DEPTH_BUFFER_BIT
        } else if self.clears_color() {
            COLOR_BUFFER_BIT
        } else {
            DEPTH_BUFFER_BIT
        }
    }

    /// The state with its colour channels kept only where `color` holds and
    /// its depth kept only where `depth` holds.
    pub open spec fn restricted(self, color: bool, depth: bool) -> ClearState {
        ClearState {
            red: if color { self.red } else { None },
            green: if color { self.green } else { None },
            blue: if color { self.blue } else { None },
            alpha: if color { self.alpha } else { None },
            depth: if depth { self.depth } else { None },
        }
    }

    /// Nothing will be cleared.
    #[verifier::when_used_as_spec(spec_none)]
    pub fn none() -> (state: ClearState)
        ensures
            state == Self::spec_none(),
    {
        ClearState { red: None, green: None, blue: None, alpha: None, depth: None }
    }

    /// The depth will be cleared to the given value.
    pub fn depth(depth: u32) -> (state: ClearState)
        ensures
            state == (ClearState {
                red: None,
                green: None,
                blue: None,
                alpha: None,
                depth: Some(depth),
            }),
    {
        ClearState { red: None, green: None, blue: None, alpha: None, depth: Some(depth) }
    }

    /// The colour channels (red, green, blue and alpha) will be cleared to
    /// the given values.
    pub fn color(red: u32, green: u32, blue: u32, alpha: u32) -> (state: ClearState)
        ensures
            state == (ClearState {
                red: Some(red),
                green: Some(green),
                blue: Some(blue),
                alpha: Some(alpha),
                depth: None,
            }),
    {
        ClearState {
            red: Some(red),
            green: Some(green),
            blue: Some(blue),
            alpha: Some(alpha),
            depth: None,
        }
    }

    /// Both the colour channels (red, green, blue and alpha) and the depth
    /// will be cleared to the given values.
    pub fn color_and_depth(red: u32, green: u32, blue: u32, alpha: u32, depth: u32) -> (state:
        ClearState)
        ensures
            state == (ClearState {
                red: Some(red),
                green: Some(green),
                blue: Some(blue),
                alpha: Some(alpha),
                depth: Some(depth),
            }),
    {
        ClearState {
            red: Some(red),
            green: Some(green),
            blue: Some(blue),
            alpha: Some(alpha),
            depth: Some(depth),
        }
    }
}

impl Default for ClearState {
    /// Colour is cleared to opaque black, depth to one.
    fn default() -> (state: ClearState)
        ensures
            state == ClearState::spec_default(),
    {
        ClearState::color_and_depth(ZERO, ZERO, ZERO, ONE, ONE)
    }
}

/// The value of an optional channel, or the given one where it is absent.
pub open spec fn channel_or(channel: Option<u32>, otherwise: u32) -> u32 {
    match channel {
        Some(value) => value,
        None => otherwise,
    }
}

/// The commands that clear what the state names: the write mask is opened
/// for exactly the named channels; where a colour channel is named the fill
/// colour is set, an unnamed channel standing at zero, an unnamed alpha at
/// one; where the depth is named the fill depth is set; then the buffers are
/// filled.
pub open spec fn spec_clear(state: ClearState) -> Seq<Command> {
    seq![Command::SetWriteMask { mask: state.write_mask() }] + (if state.clears_color() {
        seq![
            Command::ClearColor {
                red: channel_or(state.red, ZERO),
                green: channel_or(state.green, ZERO),
                blue: channel_or(state.blue, ZERO),
                alpha: channel_or(state.alpha, ONE),
            },
        ]
    } else {
        Seq::empty()
    }) + (match state.depth {
        Some(depth) => seq![Command::ClearDepth { depth }],
        None => Seq::empty(),
    }) + seq![Command::Clear { mask: state.buffer_bits() }]
}

/// The commands that clear what the state names.
pub fn clear(clear_state: &ClearState) -> (commands: Vec<Command>)
    ensures
        commands@ == spec_clear(*clear_state),
{
    let mut commands: Vec<Command> = Vec::new();
    commands.push(
        Command::SetWriteMask {
            mask: WriteMask {
                red: clear_state.red.is_some(),
                green: clear_state.green.is_some(),
                blue: clear_state.blue.is_some(),
                alpha: clear_state.alpha.is_some(),
                depth: clear_state.depth.is_some(),
            },
        },
    );
    let clear_color = clear_state.red.is_some() || clear_state.green.is_some()
        || clear_state.blue.is_some() || clear_state.alpha.is_some();
    if clear_color {
        commands.push(
            Command::ClearColor {
                red: clear_state.red.unwrap_or(ZERO),
                green: clear_state.green.unwrap_or(ZERO),
                blue: clear_state.blue.unwrap_or(ZERO),
                alpha: clear_state.alpha.unwrap_or(ONE),
            },
        );
    }
    if let Some(depth) = clear_state.depth {
        commands.push(Command::ClearDepth { depth });
    }
    commands.push(
        Command::Clear {
            mask: if clear_color && clear_state.depth.is_some() {
                COLOR_BUFFER_BIT | DEPTH_BUFFER_BIT
            } else {
                if clear_color {
                    COLOR_BUFFER_BIT
                } else {
                    DEPTH_BUFFER_BIT
                }
            },
        },
    );
    commands
}

/// The screen render target, which is essential to get something on the
/// screen.
pub struct Screen {}

impl Screen {
    /// What writing to the screen issues: the screen is bound as the
    /// framebuffer that is drawn to, it is cleared as the state says, then
    /// come the commands of the rendering itself.
    pub open spec fn spec_write(clear_state: ClearState, rendering: RecordingView) -> RecordingView {
        RecordingView::done(
            seq![Command::BindFramebuffer { target: DRAW_FRAMEBUFFER, framebuffer: None }]
                + spec_clear(clear_state),
        ).followed_by(rendering)
    }

    /// What reading the colours of the screen issues.
    pub open spec fn spec_read_color(viewport: Viewport) -> Seq<Command> {
        seq![
            Command::BindFramebuffer { target: READ_FRAMEBUFFER, framebuffer: None },
            Command::ReadPixels {
                x: viewport.x as u32,
                y: viewport.y as u32,
                width: viewport.width as u32,
                height: viewport.height as u32,
                format: RGB,
                data_type: UNSIGNED_BYTE,
            },
        ]
    }

    /// What reading the depths of the screen issues.
    pub open spec fn spec_read_depth(viewport: Viewport) -> Seq<Command> {
        seq![
            Command::BindFramebuffer { target: READ_FRAMEBUFFER, framebuffer: None },
            Command::ReadPixels {
                x: viewport.x as u32,
                y: viewport.y as u32,
                width: viewport.width as u32,
                height: viewport.height as u32,
                format: DEPTH_COMPONENT,
                data_type: FLOAT,
            },
        ]
    }

    /// Wraps a finished rendering in what writing to the screen issues
    /// before it.
    pub fn write_recording(clear_state: &ClearState, rendering: Recording) -> (recording: Recording)
        ensures
            recording@ == Self::spec_write(*clear_state, rendering@),
    {
        let mut commands: Vec<Command> = Vec::new();
        commands.push(Command::BindFramebuffer { target: DRAW_FRAMEBUFFER, framebuffer: None });
        let mut cleared = clear(clear_state);
        commands.append(&mut cleared);
        Recording::done(commands).followed_by(rendering)
    }

    /// Call this function and make a render call in the `render` closure to
    /// render something to the screen.
    pub fn write<F: FnOnce() -> Recording>(clear_state: &ClearState, render: F) -> (recording:
        Recording)
        requires
            render.requires(()),
        ensures
            exists|rendering: Recording|
                render.ensures((), rendering) && recording@ == Self::spec_write(
                    *clear_state,
                    rendering@,
                ),
    {
        let rendering = render();
        Self::write_recording(clear_state, rendering)
    }

    /// The commands that read the RGB colour values of the viewport from the
    /// screen, one byte for each colour channel, and the zeroed buffer that
    /// they fill.
    pub fn read_color(viewport: Viewport) -> (read: (Vec<u8>, Vec<Command>))
        requires
            viewport.width * viewport.height * 3 <= usize::MAX,
        ensures
            read.0@ == Seq::new((viewport.width * viewport.height * 3) as nat, |i: int| 0u8),
            read.1@ == Self::spec_read_color(viewport),
    {
        let length: usize = viewport.width * viewport.height * 3;
        let pixels: Vec<u8> = vec![0u8; length];
        let mut commands: Vec<Command> = Vec::new();
        commands.push(Command::BindFramebuffer { target: READ_FRAMEBUFFER, framebuffer: None });
        commands.push(
            Command::ReadPixels {
                x: #[verifier::truncate] (viewport.x as u32),
                y: #[verifier::truncate] (viewport.y as u32),
                width: #[verifier::truncate] (viewport.width as u32),
                height: #[verifier::truncate] (viewport.height as u32),
                format: RGB,
                data_type: UNSIGNED_BYTE,
            },
        );
        (pixels, commands)
    }

    /// The commands that read the depth values of the viewport from the
    /// screen, and the number of values that they give.
    pub fn read_depth(viewport: Viewport) -> (read: (usize, Vec<Command>))
        requires
            viewport.width * viewport.height <= usize::MAX,
        ensures
            read.0 == viewport.width * viewport.height,
            read.1@ == Self::spec_read_depth(viewport),
    {
        let length: usize = viewport.width * viewport.height;
        let mut commands: Vec<Command> = Vec::new();
        commands.push(Command::BindFramebuffer { target: READ_FRAMEBUFFER, framebuffer: None });
        commands.push(
            Command::ReadPixels {
                x: #[verifier::truncate] (viewport.x as u32),
                y: #[verifier::truncate] (viewport.y as u32),
                width: #[verifier::truncate] (viewport.width as u32),
                height: #[verifier::truncate] (viewport.height as u32),
                format: DEPTH_COMPONENT,
                data_type: FLOAT,
            },
        );
        (length, commands)
    }
}

/// The error for a framebuffer that the device did not give.
pub open spec fn spec_no_framebuffer() -> ErrorView {
    ErrorView::FailedToCreateFramebuffer { message: "Failed to create framebuffer"@ }
}

/// Takes what the device gave when it was asked for a framebuffer: the
/// framebuffer, or the error where it gave none.
pub fn new_framebuffer(framebuffer: Option<Framebuffer>) -> (made: Result<Framebuffer, Error>)
    ensures
        match framebuffer {
            Some(id) => made == Ok::<Framebuffer, Error>(id),
            None => made matches Err(error) && error@ == spec_no_framebuffer(),
        },
{
    match framebuffer {
        Some(id) => Ok(id),
        None => Err(
            Error::FailedToCreateFramebuffer {
                message: String::from_str("Failed to create framebuffer"),
            },
        ),
    }
}

/// Takes what the device said of the bound framebuffer: a complaint becomes
/// the error of a framebuffer that could not be made.
pub fn check(status: Result<(), String>) -> (checked: Result<(), Error>)
    ensures
        match status {
            Ok(_) => checked is Ok,
            Err(message) => checked matches Err(error) && error@
                == (ErrorView::FailedToCreateFramebuffer { message: message@ }),
        },
{
    match status {
        Ok(_) => Ok(()),
        Err(message) => Err(Error::FailedToCreateFramebuffer { message }),
    }
}

/// The colour attachments that `DrawBuffers` with the given count declares:
/// the first `count` of them, in order.
pub open spec fn spec_draw_buffers(count: usize) -> Seq<u32> {
    Seq::new(count as nat, |i: int| (COLOR_ATTACHMENT0 + i) as u32)
}

/// The colour attachments that `DrawBuffers` with the given count declares.
pub fn draw_buffers(count: usize) -> (attachments: Vec<u32>)
    requires
        COLOR_ATTACHMENT0 + count <= u32::MAX,
    ensures
        attachments@ == spec_draw_buffers(count),
{
    let mut attachments: Vec<u32> = Vec::new();
    let mut i: usize = 0;
    while i < count
        invariant
            i <= count,
            COLOR_ATTACHMENT0 + count <= u32::MAX,
            attachments@ == spec_draw_buffers(i),
        decreases count - i,
    {
        attachments.push(COLOR_ATTACHMENT0 + i as u32);
        i = i + 1;
    }
    attachments
}

/// Use a render target to render into a texture (colour, depth or both).
/// Can be created each time it is needed.
#[derive(Debug, PartialEq, Eq)]
pub struct RenderTarget<'a, 'b> {
    pub id: Framebuffer,
    pub color_texture: Option<&'a ColorTargetTexture2D>,
    pub depth_texture: Option<&'b DepthTargetTexture2D>,
}

impl<'a, 'b> RenderTarget<'a, 'b> {
    /// The name of the colour texture, where the target has one.
    pub open spec fn color(&self) -> Option<Texture> {
        match self.color_texture {
            Some(texture) => Some(texture.texture),
            None => None,
        }
    }

    /// The name of the depth texture, where the target has one.
    pub open spec fn depth(&self) -> Option<Texture> {
        match self.depth_texture {
            Some(texture) => Some(texture.texture),
            None => None,
        }
    }

    /// Whether the target has the textures that a copy of the given parts
    /// reads or writes.
    pub open spec fn has(&self, channels: Channels) -> bool {
        &&& channels.color() ==> self.color_texture is Some
        &&& channels.depth() ==> self.depth_texture is Some
    }

    /// What binding the target issues: its framebuffer becomes the one that
    /// is drawn to; the colour texture, where there is one, becomes the only
    /// draw buffer; the depth texture, where there is one, becomes the depth
    /// target.
    pub open spec fn spec_bind(&self) -> Seq<Command> {
        seq![Command::BindFramebuffer { target: DRAW_FRAMEBUFFER, framebuffer: Some(self.id) }] + (
        match self.color() {
            Some(texture) => seq![
                Command::DrawBuffers { count: 1 },
                Command::BindAsColorTarget { texture, channel: 0 },
            ],
            None => Seq::empty(),
        }) + (match self.depth() {
            Some(texture) => seq![Command::BindAsDepthTarget { texture }],
            None => Seq::empty(),
        })
    }

    /// What follows a rendering into the target: the smaller levels of the
    /// colour texture are filled in.
    pub open spec fn spec_finish(&self) -> Seq<Command> {
        match self.color() {
            Some(texture) => seq![Command::GenerateMipMaps { texture }],
            None => Seq::empty(),
        }
    }

    /// What writing to the target issues: the target is bound; of the clear
    /// state, what the target has a texture for is cleared; then come the
    /// commands of the rendering itself and, where it succeeded, what
    /// follows a rendering.
    pub open spec fn spec_write(
        &self,
        clear_state: ClearState,
        rendering: RecordingView,
    ) -> RecordingView {
        RecordingView::done(
            self.spec_bind() + spec_clear(
                clear_state.restricted(self.color_texture is Some, self.depth_texture is Some),
            ),
        ).followed_by(rendering).followed_by(RecordingView::done(self.spec_finish()))
    }

    /// The rendering that copies the given parts of the target.
    pub open spec fn spec_copy_rendering(
        &self,
        effects: CopyEffects,
        channels: Channels,
        viewport: Viewport,
    ) -> RecordingView {
        RecordingView::done(
            effects.spec_get_copy_effect() + spec_copy_commands(
                effects.copy,
                if channels.color() {
                    self.color()
                } else {
                    None
                },
                if channels.depth() {
                    self.depth()
                } else {
                    None
                },
                channels,
                viewport,
            ),
        )
    }

    /// What copying the given parts of the target to the screen issues:
    /// nothing but the error where the target lacks a texture for one of
    /// them; else a write to the screen that clears nothing and renders the
    /// copy.
    pub open spec fn spec_copy_to_screen(
        &self,
        effects: CopyEffects,
        channels: Channels,
        viewport: Viewport,
    ) -> RecordingView {
        if !self.has(channels) {
            channels.failure()
        } else {
            Screen::spec_write(
                ClearState::spec_none(),
                self.spec_copy_rendering(effects, channels, viewport),
            )
        }
    }

    /// What copying the given parts of the target to another target issues:
    /// nothing but the error where either target lacks a texture for one of
    /// them; else a write to the other target that clears nothing and
    /// renders the copy.
    pub open spec fn spec_copy(
        &self,
        effects: CopyEffects,
        channels: Channels,
        other: &RenderTarget,
        viewport: Viewport,
    ) -> RecordingView {
        if !self.has(channels) || !other.has(channels) {
            channels.failure()
        } else {
            other.spec_write(
                ClearState::spec_none(),
                self.spec_copy_rendering(effects, channels, viewport),
            )
        }
    }

    /// Constructs a new render target that enables rendering into the given
    /// colour and depth textures, behind the framebuffer that the device
    /// gave. Where it gave none, the error says so.
    pub fn new(
        framebuffer: Option<Framebuffer>,
        color_texture: &'a ColorTargetTexture2D,
        depth_texture: &'b DepthTargetTexture2D,
    ) -> (made: Result<Self, Error>)
        ensures
            match framebuffer {
                Some(id) => made matches Ok(target) && target.id == id && target.color_texture
                    == Some(color_texture) && target.depth_texture == Some(depth_texture),
                None => made matches Err(error) && error@ == spec_no_framebuffer(),
            },
    {
        match new_framebuffer(framebuffer) {
            Ok(id) => Ok(
                Self { id, color_texture: Some(color_texture), depth_texture: Some(depth_texture) },
            ),
            Err(error) => Err(error),
        }
    }

    /// Constructs a new render target that enables rendering into the given
    /// colour texture, behind the framebuffer that the device gave. Where it
    /// gave none, the error says so.
    pub fn new_color(framebuffer: Option<Framebuffer>, color_texture: &'a ColorTargetTexture2D) -> (made:
        Result<Self, Error>)
        ensures
            match framebuffer {
                Some(id) => made matches Ok(target) && target.id == id && target.color_texture
                    == Some(color_texture) && target.depth_texture is None,
                None => made matches Err(error) && error@ == spec_no_framebuffer(),
            },
    {
        match new_framebuffer(framebuffer) {
            Ok(id) => Ok(Self { id, color_texture: Some(color_texture), depth_texture: None }),
            Err(error) => Err(error),
        }
    }

    /// Constructs a new render target that enables rendering into the given
    /// depth texture, behind the framebuffer that the device gave. Where it
    /// gave none, the error says so.
    pub fn new_depth(framebuffer: Option<Framebuffer>, depth_texture: &'b DepthTargetTexture2D) -> (made:
        Result<Self, Error>)
        ensures
            match framebuffer {
                Some(id) => made matches Ok(target) && target.id == id && target.color_texture is None
                    && target.depth_texture == Some(depth_texture),
                None => made matches Err(error) && error@ == spec_no_framebuffer(),
            },
    {
        match new_framebuffer(framebuffer) {
            Ok(id) => Ok(Self { id, color_texture: None, depth_texture: Some(depth_texture) }),
            Err(error) => Err(error),
        }
    }

    /// The commands that make the target the one that is drawn to.
    pub fn bind(&self) -> (commands: Vec<Command>)
        ensures
            commands@ == self.spec_bind(),
    {
        let mut commands: Vec<Command> = Vec::new();
        commands.push(
            Command::BindFramebuffer { target: DRAW_FRAMEBUFFER, framebuffer: Some(self.id) },
        );
        if let Some(tex) = self.color_texture {
            commands.push(Command::DrawBuffers { count: 1 });
            commands.push(Command::BindAsColorTarget { texture: tex.texture, channel: 0 });
        }
        if let Some(tex) = self.depth_texture {
            commands.push(Command::BindAsDepthTarget { texture: tex.texture });
        }
        commands
    }

    /// Wraps a finished rendering in what writing to the target issues
    /// before and after it.
    pub fn write_recording(&self, clear_state: &ClearState, rendering: Recording) -> (recording:
        Recording)
        ensures
            recording@ == self.spec_write(*clear_state, rendering@),
    {
        let mut commands = self.bind();
        let mut cleared = clear(
            &ClearState {
                red: if self.color_texture.is_some() {
                    clear_state.red
                } else {
                    None
                },
                green: if self.color_texture.is_some() {
                    clear_state.green
                } else {
                    None
                },
                blue: if self.color_texture.is_some() {
                    clear_state.blue
                } else {
                    None
                },
                alpha: if self.color_texture.is_some() {
                    clear_state.alpha
                } else {
                    None
                },
                depth: if self.depth_texture.is_some() {
                    clear_state.depth
                } else {
                    None
                },
            },
        );
        commands.append(&mut cleared);
        let mut finish: Vec<Command> = Vec::new();
        if let Some(color_texture) = self.color_texture {
            finish.push(Command::GenerateMipMaps { texture: color_texture.texture });
        }
        Recording::done(commands).followed_by(rendering).followed_by(Recording::done(finish))
    }

    /// Renders whatever is rendered in the `render` closure into the
    /// textures defined at construction. Before writing, the textures are
    /// cleared based on the given clear state.
    pub fn write<F: FnOnce() -> Recording>(&self, clear_state: &ClearState, render: F) -> (recording:
        Recording)
        requires
            render.requires(()),
        ensures
            exists|rendering: Recording|
                render.ensures((), rendering) && recording@ == self.spec_write(
                    *clear_state,
                    rendering@,
                ),
    {
        let rendering = render();
        self.write_recording(clear_state, rendering)
    }

    fn copy_rendering(&self, effects: &mut CopyEffects, channels: Channels, viewport: Viewport) -> (rendering:
        Recording)
        requires
            self.has(channels),
        ensures
            rendering@ == self.spec_copy_rendering(*old(effects), channels, viewport),
            *final(effects) == old(effects).with_copy_effect(),
    {
        let (effect, mut commands) = effects.get_copy_effect();
        let color = if channels.takes_color() {
            Some(self.color_texture.unwrap().texture)
        } else {
            None
        };
        let depth = if channels.takes_depth() {
            Some(self.depth_texture.unwrap().texture)
        } else {
            None
        };
        let mut copy = copy_commands(effect, color, depth, channels, viewport);
        commands.append(&mut copy);
        Recording::done(commands)
    }

    pub(crate) fn holds(&self, channels: Channels) -> (held: bool)
        ensures
            held == self.has(channels),
    {
        (!channels.takes_color() || self.color_texture.is_some()) && (!channels.takes_depth()
            || self.depth_texture.is_some())
    }

    /// Copies the given parts of this render target to the screen, with the
    /// copy effect of `effects`.
    pub fn copy_channels_to_screen(
        &self,
        effects: &mut CopyEffects,
        channels: Channels,
        viewport: Viewport,
    ) -> (recording: Recording)
        ensures
            recording@ == self.spec_copy_to_screen(*old(effects), channels, viewport),
            *final(effects) == if self.has(channels) {
                old(effects).with_copy_effect()
            } else {
                *old(effects)
            },
    {
        if !self.holds(channels) {
            return channels.refusal();
        }
        let rendering = self.copy_rendering(effects, channels, viewport);
        Screen::write_recording(&ClearState::none(), rendering)
    }

    /// Copies the given parts of this render target to another render
    /// target, with the copy effect of `effects`.
    pub fn copy_channels(
        &self,
        effects: &mut CopyEffects,
        channels: Channels,
        other: &RenderTarget,
        viewport: Viewport,
    ) -> (recording: Recording)
        ensures
            recording@ == self.spec_copy(*old(effects), channels, other, viewport),
            *final(effects) == if self.has(channels) && other.has(channels) {
                old(effects).with_copy_effect()
            } else {
                *old(effects)
            },
    {
        if !self.holds(channels) || !other.holds(channels) {
            return channels.refusal();
        }
        let rendering = self.copy_rendering(effects, channels, viewport);
        other.write_recording(&ClearState::none(), rendering)
    }

    /// Copies the content of the colour and depth textures in this render
    /// target to the screen.
    ///
    /// # Errors
    /// Will return an error if this render target is not constructed with
    /// both a colour and depth texture.
    pub fn copy_to_screen(&self, effects: &mut CopyEffects, viewport: Viewport) -> (recording:
        Recording)
        ensures
            recording@ == self.spec_copy_to_screen(
                *old(effects),
                Channels::ColorAndDepth,
                viewport,
            ),
            *final(effects) == if self.has(Channels::ColorAndDepth) {
                old(effects).with_copy_effect()
            } else {
                *old(effects)
            },
    {
        self.copy_channels_to_screen(effects, Channels::ColorAndDepth, viewport)
    }

    /// Copies the content of the colour texture in this render target to the
    /// screen.
    ///
    /// # Errors
    /// Will return an error if this render target is not constructed with a
    /// colour texture.
    pub fn copy_color_to_screen(&self, effects: &mut CopyEffects, viewport: Viewport) -> (recording:
        Recording)
        ensures
            recording@ == self.spec_copy_to_screen(*old(effects), Channels::Color, viewport),
            *final(effects) == if self.has(Channels::Color) {
                old(effects).with_copy_effect()
            } else {
                *old(effects)
            },
    {
        self.copy_channels_to_screen(effects, Channels::Color, viewport)
    }

    /// Copies the content of the depth texture in this render target to the
    /// screen.
    ///
    /// # Errors
    /// Will return an error if this render target is not constructed with a
    /// depth texture.
    pub fn copy_depth_to_screen(&self, effects: &mut CopyEffects, viewport: Viewport) -> (recording:
        Recording)
        ensures
            recording@ == self.spec_copy_to_screen(*old(effects), Channels::Depth, viewport),
            *final(effects) == if self.has(Channels::Depth) {
                old(effects).with_copy_effect()
            } else {
                *old(effects)
            },
    {
        self.copy_channels_to_screen(effects, Channels::Depth, viewport)
    }

    /// Copies the content of the colour and depth textures in this render
    /// target to another render target.
    ///
    /// # Errors
    /// Will return an error if either render target is not constructed with
    /// both a colour and depth texture.
    pub fn copy(&self, effects: &mut CopyEffects, other: &RenderTarget, viewport: Viewport) -> (recording:
        Recording)
        ensures
            recording@ == self.spec_copy(*old(effects), Channels::ColorAndDepth, other, viewport),
            *final(effects) == if self.has(Channels::ColorAndDepth) && other.has(
                Channels::ColorAndDepth,
            ) {
                old(effects).with_copy_effect()
            } else {
                *old(effects)
            },
    {
        self.copy_channels(effects, Channels::ColorAndDepth, other, viewport)
    }

    /// Copies the content of the colour texture in this render target to
    /// another render target.
    ///
    /// # Errors
    /// Will return an error if either render target is not constructed with
    /// a colour texture.
    pub fn copy_color(&self, effects: &mut CopyEffects, other: &RenderTarget, viewport: Viewport) -> (recording:
        Recording)
        ensures
            recording@ == self.spec_copy(*old(effects), Channels::Color, other, viewport),
            *final(effects) == if self.has(Channels::Color) && other.has(Channels::Color) {
                old(effects).with_copy_effect()
            } else {
                *old(effects)
            },
    {
        self.copy_channels(effects, Channels::Color, other, viewport)
    }

    /// Copies the content of the depth texture in this render target to
    /// another render target.
    ///
    /// # Errors
    /// Will return an error if either render target is not constructed with
    /// a depth texture.
    pub fn copy_depth(&self, effects: &mut CopyEffects, other: &RenderTarget, viewport: Viewport) -> (recording:
        Recording)
        ensures
            recording@ == self.spec_copy(*old(effects), Channels::Depth, other, viewport),
            *final(effects) == if self.has(Channels::Depth) && other.has(Channels::Depth) {
                old(effects).with_copy_effect()
            } else {
                *old(effects)
            },
    {
        self.copy_channels(effects, Channels::Depth, other, viewport)
    }

    /// The command that frees the framebuffer of the target. The target is
    /// used up.
    pub fn delete(self) -> (command: Command)
        ensures
            command == (Command::DeleteFramebuffer { framebuffer: self.id }),
    {
        Command::DeleteFramebuffer { framebuffer: self.id }
    }
}

/// Clearing opens the write mask for exactly the channels that the state
/// names before anything else, fills the buffers last, and sets a fill value
/// only for what it fills.
pub proof fn lemma_clear_sets_the_mask_first_and_fills_last(state: ClearState)
    ensures
        2 <= spec_clear(state).len() <= 4,
        spec_clear(state).first() == (Command::SetWriteMask { mask: state.write_mask() }),
        spec_clear(state).last() == (Command::Clear { mask: state.buffer_bits() }),
        spec_clear(state).len() == 2 + (if state.clears_color() {
            1int
        } else {
            0int
        }) + (if state.depth is Some {
            1int
        } else {
            0int
        }),
{
}

/// Of what a write issues, the first command binds where the write goes: the
/// screen, or the framebuffer of the target.
pub proof fn lemma_a_write_binds_its_target_first(
    target: RenderTarget,
    clear_state: ClearState,
    rendering: RecordingView,
)
    ensures
        Screen::spec_write(clear_state, rendering).commands.first() == (Command::BindFramebuffer {
            target: DRAW_FRAMEBUFFER,
            framebuffer: None,
        }),
        target.spec_write(clear_state, rendering).commands.first() == (Command::BindFramebuffer {
            target: DRAW_FRAMEBUFFER,
            framebuffer: Some(target.id),
        }),
{
}

/// A copy succeeds exactly where the targets have the textures for what is
/// copied; a copy that is refused issues nothing.
pub proof fn lemma_a_copy_succeeds_iff_the_textures_are_there(
    source: RenderTarget,
    effects: CopyEffects,
    channels: Channels,
    other: &RenderTarget,
    viewport: Viewport,
)
    ensures
        source.spec_copy_to_screen(effects, channels, viewport).failure is None <==> source.has(
            channels,
        ),
        source.spec_copy(effects, channels, other, viewport).failure is None <==> source.has(
            channels,
        ) && other.has(channels),
        !source.has(channels) ==> source.spec_copy_to_screen(
            effects,
            channels,
            viewport,
        ).commands.len() == 0,
        !(source.has(channels) && other.has(channels)) ==> source.spec_copy(
            effects,
            channels,
            other,
            viewport,
        ).commands.len() == 0,
{
}

/// The buffers that a clear fills, as one number: both bits where colour and
/// depth are cleared, the bit of colour where only colour is, and the bit of
/// depth otherwise, also where nothing is cleared.
pub proof fn lemma_buffer_bits(state: ClearState)
    ensures
        state.clears_color() && state.depth is Some ==> state.buffer_bits() == 0x4100,
        state.clears_color() && state.depth is None ==> state.buffer_bits() == 0x4000,
        !state.clears_color() ==> state.buffer_bits() == 0x0100,
{
    assert(0x4000u32 | 0x0100u32 == 0x4100u32) by (bit_vector);
}

/// Clearing does not change where drawing goes.
pub proof fn lemma_clear_keeps_draw_target(state: ClearState)
    ensures
        keeps_draw_target(spec_clear(state)),
{
}

/// What is rendered in a write to the screen is drawn to the screen: at
/// every point of a rendering that does not itself change where drawing
/// goes, drawing goes to the screen, wherever it went before the write.
pub proof fn lemma_a_write_to_the_screen_draws_to_the_screen(
    clear_state: ClearState,
    rendering: RecordingView,
    before: Option<Framebuffer>,
    at: int,
)
    requires
        keeps_draw_target(rendering.commands),
        0 <= at <= rendering.commands.len(),
    ensures
        draw_target_after(
            Screen::spec_write(clear_state, rendering).commands.take(
                1 + spec_clear(clear_state).len() + at,
            ),
            before,
        ) is None,
{
    let cleared = spec_clear(clear_state);
    let rendered = rendering.commands.take(at);
    let bound = seq![Command::BindFramebuffer { target: DRAW_FRAMEBUFFER, framebuffer: None }];
    lemma_clear_keeps_draw_target(clear_state);
    lemma_keeping_draw_target_adds_up(cleared, rendered);
    lemma_draw_target_is_the_one_bound(None, cleared + rendered, before);
    assert(Screen::spec_write(clear_state, rendering).commands.take(1 + cleared.len() + at)
        =~= bound + (cleared + rendered));
}

/// What is rendered in a write to a render target is drawn to the render
/// target: at every point of a rendering that does not itself change where
/// drawing goes, drawing goes to the framebuffer of the target, wherever it
/// went before the write.
pub proof fn lemma_a_write_to_a_target_draws_to_the_target(
    target: RenderTarget,
    clear_state: ClearState,
    rendering: RecordingView,
    before: Option<Framebuffer>,
    at: int,
)
    requires
        keeps_draw_target(rendering.commands),
        0 <= at <= rendering.commands.len(),
    ensures
        draw_target_after(
            target.spec_write(clear_state, rendering).commands.take(
                target.spec_bind().len() + spec_clear(
                    clear_state.restricted(
                        target.color_texture is Some,
                        target.depth_texture is Some,
                    ),
                ).len() + at,
            ),
            before,
        ) == Some(target.id),
{
    let cleared = spec_clear(
        clear_state.restricted(target.color_texture is Some, target.depth_texture is Some),
    );
    let rendered = rendering.commands.take(at);
    let bound = seq![
        Command::BindFramebuffer { target: DRAW_FRAMEBUFFER, framebuffer: Some(target.id) },
    ];
    let attached = target.spec_bind().subrange(1, target.spec_bind().len() as int);
    lemma_clear_keeps_draw_target(
        clear_state.restricted(target.color_texture is Some, target.depth_texture is Some),
    );
    lemma_keeping_draw_target_adds_up(attached, cleared);
    lemma_keeping_draw_target_adds_up(attached + cleared, rendered);
    lemma_draw_target_is_the_one_bound(Some(target.id), attached + cleared + rendered, before);
    assert(target.spec_write(clear_state, rendering).commands.take(
        target.spec_bind().len() + cleared.len() + at,
    ) =~= bound + (attached + cleared + rendered));
}

/// A copy between render targets is drawn into the one that it is copied to:
/// the rendering of the copy does not change where drawing goes, and the
/// effect is run while drawing goes to the framebuffer of the other target.
pub proof fn lemma_a_copy_is_drawn_into_the_other_target(
    source: RenderTarget,
    effects: CopyEffects,
    channels: Channels,
    other: &RenderTarget,
    viewport: Viewport,
    before: Option<Framebuffer>,
)
    requires
        source.has(channels),
        other.has(channels),
    ensures
        keeps_draw_target(source.spec_copy_rendering(effects, channels, viewport).commands),
        source.spec_copy_rendering(effects, channels, viewport).commands.last() is Apply,
        draw_target_after(
            source.spec_copy(effects, channels, other, viewport).commands.take(
                other.spec_bind().len() + spec_clear(ClearState::spec_none()).len()
                    + source.spec_copy_rendering(effects, channels, viewport).commands.len() - 1,
            ),
            before,
        ) == Some(other.id),
{
    let rendering = source.spec_copy_rendering(effects, channels, viewport);
    lemma_a_write_to_a_target_draws_to_the_target(
        *other,
        ClearState::spec_none(),
        rendering,
        before,
        rendering.commands.len() - 1,
    );
}

/// A copy from a render target to the screen is drawn to the screen: the
/// effect is run while drawing goes to the screen.
pub proof fn lemma_a_copy_to_the_screen_is_drawn_to_the_screen(
    source: RenderTarget,
    effects: CopyEffects,
    channels: Channels,
    viewport: Viewport,
    before: Option<Framebuffer>,
)
    requires
        source.has(channels),
    ensures
        source.spec_copy_to_screen(effects, channels, viewport).commands.last() is Apply,
        draw_target_after(
            source.spec_copy_to_screen(effects, channels, viewport).commands.drop_last(),
            before,
        ) is None,
{
    let rendering = source.spec_copy_rendering(effects, channels, viewport);
    let copied = source.spec_copy_to_screen(effects, channels, viewport);
    lemma_a_write_to_the_screen_draws_to_the_screen(
        ClearState::spec_none(),
        rendering,
        before,
        rendering.commands.len() - 1,
    );
}

} // verus!
