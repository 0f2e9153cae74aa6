use three_d::context::Command;
use three_d::context::EffectSource;
use three_d::context::Framebuffer;
use three_d::context::Name;
use three_d::context::Program;
use three_d::context::Recording;
use three_d::context::Texture;
use three_d::effect::ImageEffect;
use three_d::error::Error;
use three_d::render_target::check;
use three_d::copy::COPY_ARRAY_EFFECT_SOURCE;
use three_d::copy::COPY_EFFECT_SOURCE;
use three_d::render_target::draw_buffers;
use three_d::render_target::new_framebuffer;
use three_d::copy::Channels;
use three_d::render_target::ClearState;
use three_d::copy::CopyEffects;
use three_d::render_target::RenderTarget;
use three_d::states::CullType;
use three_d::states::DepthTestType;
use three_d::states::RenderStates;
use three_d::states::Viewport;
use three_d::states::WriteMask;
use three_d::texture::ColorTargetTexture2D;
use three_d::texture::DepthTargetTexture2D;

const BOTH: &str = "Cannot copy depth and color when the render target does not have a color and depth texture.";
const COLOR: &str = "Cannot copy color when the render target does not have a color texture.";
const DEPTH: &str = "Cannot copy depth when the render target does not have a depth texture.";

fn color_texture(id: u32) -> ColorTargetTexture2D {
    ColorTargetTexture2D { texture: Texture { id }, width: 16, height: 8 }
}

fn depth_texture(id: u32) -> DepthTargetTexture2D {
    DepthTargetTexture2D { texture: Texture { id }, width: 16, height: 8 }
}

fn viewport() -> Viewport {
    Viewport { x: 1, y: 2, width: 16, height: 8 }
}

fn effects() -> CopyEffects {
    CopyEffects::new(Program { id: 100 }, Program { id: 200 })
}

fn closed_mask() -> Command {
    Command::SetWriteMask {
        mask: WriteMask { red: false, green: false, blue: false, alpha: false, depth: false },
    }
}

fn states(write_mask: WriteMask) -> RenderStates {
    RenderStates { write_mask, depth_test: DepthTestType::Always, cull: CullType::Back }
}

fn refused(message: &str) -> Recording {
    Recording {
        commands: vec![],
        result: Err(Error::FailedToCopyFromRenderTarget { message: message.to_string() }),
    }
}

#[test]
fn a_framebuffer_that_was_given_is_taken() {
    assert_eq!(new_framebuffer(Some(Framebuffer { id: 4 })), Ok(Framebuffer { id: 4 }));
}

#[test]
fn a_framebuffer_that_was_not_given_is_an_error() {
    assert_eq!(
        new_framebuffer(None),
        Err(Error::FailedToCreateFramebuffer {
            message: "Failed to create framebuffer".to_string()
        })
    );
}

#[test]
fn a_complaint_of_the_device_becomes_a_framebuffer_error() {
    assert_eq!(check(Ok(())), Ok(()));
    assert_eq!(
        check(Err("incomplete attachment".to_string())),
        Err(Error::FailedToCreateFramebuffer { message: "incomplete attachment".to_string() })
    );
}

#[test]
fn draw_buffers_are_the_first_attachments_in_order() {
    assert_eq!(draw_buffers(0), Vec::<u32>::new());
    assert_eq!(draw_buffers(1), vec![0x8CE0]);
    assert_eq!(draw_buffers(3), vec![0x8CE0, 0x8CE1, 0x8CE2]);
}

#[test]
fn a_target_of_both_textures_holds_both() {
    let color = color_texture(1);
    let depth = depth_texture(2);
    let target = RenderTarget::new(Some(Framebuffer { id: 7 }), &color, &depth).unwrap();
    assert_eq!(target.id, Framebuffer { id: 7 });
    assert_eq!(target.color_texture, Some(&color));
    assert_eq!(target.depth_texture, Some(&depth));
}

#[test]
fn a_target_of_colour_holds_colour_only() {
    let color = color_texture(1);
    let target = RenderTarget::new_color(Some(Framebuffer { id: 7 }), &color).unwrap();
    assert_eq!(target.id, Framebuffer { id: 7 });
    assert_eq!(target.color_texture, Some(&color));
    assert_eq!(target.depth_texture, None);
}

#[test]
fn a_target_of_depth_holds_depth_only() {
    let depth = depth_texture(2);
    let target = RenderTarget::new_depth(Some(Framebuffer { id: 7 }), &depth).unwrap();
    assert_eq!(target.id, Framebuffer { id: 7 });
    assert_eq!(target.color_texture, None);
    assert_eq!(target.depth_texture, Some(&depth));
}

#[test]
fn no_target_without_a_framebuffer() {
    let color = color_texture(1);
    let depth = depth_texture(2);
    let error = Error::FailedToCreateFramebuffer {
        message: "Failed to create framebuffer".to_string(),
    };
    assert_eq!(RenderTarget::new(None, &color, &depth), Err(error));
    let error = Error::FailedToCreateFramebuffer {
        message: "Failed to create framebuffer".to_string(),
    };
    assert_eq!(RenderTarget::new_color(None, &color), Err(error));
    let error = Error::FailedToCreateFramebuffer {
        message: "Failed to create framebuffer".to_string(),
    };
    assert_eq!(RenderTarget::new_depth(None, &depth), Err(error));
}

#[test]
fn binding_a_full_target_attaches_colour_then_depth() {
    let color = color_texture(1);
    let depth = depth_texture(2);
    let target = RenderTarget::new(Some(Framebuffer { id: 7 }), &color, &depth).unwrap();
    assert_eq!(
        target.bind(),
        vec![
            Command::BindFramebuffer { target: 0x8CA9, framebuffer: Some(Framebuffer { id: 7 }) },
            Command::DrawBuffers { count: 1 },
            Command::BindAsColorTarget { texture: Texture { id: 1 }, channel: 0 },
            Command::BindAsDepthTarget { texture: Texture { id: 2 } },
        ]
    );
}

#[test]
fn binding_a_colour_target_attaches_colour_only() {
    let color = color_texture(1);
    let target = RenderTarget::new_color(Some(Framebuffer { id: 7 }), &color).unwrap();
    assert_eq!(
        target.bind(),
        vec![
            Command::BindFramebuffer { target: 0x8CA9, framebuffer: Some(Framebuffer { id: 7 }) },
            Command::DrawBuffers { count: 1 },
            Command::BindAsColorTarget { texture: Texture { id: 1 }, channel: 0 },
        ]
    );
}

#[test]
fn binding_a_depth_target_attaches_depth_only() {
    let depth = depth_texture(2);
    let target = RenderTarget::new_depth(Some(Framebuffer { id: 7 }), &depth).unwrap();
    assert_eq!(
        target.bind(),
        vec![
            Command::BindFramebuffer { target: 0x8CA9, framebuffer: Some(Framebuffer { id: 7 }) },
            Command::BindAsDepthTarget { texture: Texture { id: 2 } },
        ]
    );
}

#[test]
fn writing_to_a_full_target_clears_renders_and_fills_the_levels() {
    let color = color_texture(1);
    let depth = depth_texture(2);
    let target = RenderTarget::new(Some(Framebuffer { id: 7 }), &color, &depth).unwrap();
    let recording = target.write(&ClearState::default(), || {
        Recording::done(vec![Command::ClearDepth { depth: 42 }])
    });
    assert_eq!(
        recording.commands,
        vec![
            Command::BindFramebuffer { target: 0x8CA9, framebuffer: Some(Framebuffer { id: 7 }) },
            Command::DrawBuffers { count: 1 },
            Command::BindAsColorTarget { texture: Texture { id: 1 }, channel: 0 },
            Command::BindAsDepthTarget { texture: Texture { id: 2 } },
            Command::SetWriteMask { mask: WriteMask::color_and_depth() },
            Command::ClearColor { red: 0, green: 0, blue: 0, alpha: 0x3F80_0000 },
            Command::ClearDepth { depth: 0x3F80_0000 },
            Command::Clear { mask: 0x4100 },
            Command::ClearDepth { depth: 42 },
            Command::GenerateMipMaps { texture: Texture { id: 1 } },
        ]
    );
    assert_eq!(recording.result, Ok(()));
}

#[test]
fn writing_to_a_depth_target_clears_no_colour_and_fills_no_levels() {
    let depth = depth_texture(2);
    let target = RenderTarget::new_depth(Some(Framebuffer { id: 7 }), &depth).unwrap();
    let recording = target.write(&ClearState::default(), || Recording::done(vec![]));
    assert_eq!(
        recording.commands,
        vec![
            Command::BindFramebuffer { target: 0x8CA9, framebuffer: Some(Framebuffer { id: 7 }) },
            Command::BindAsDepthTarget { texture: Texture { id: 2 } },
            Command::SetWriteMask { mask: WriteMask::depth() },
            Command::ClearDepth { depth: 0x3F80_0000 },
            Command::Clear { mask: 0x100 },
        ]
    );
}

#[test]
fn writing_to_a_colour_target_clears_no_depth() {
    let color = color_texture(1);
    let target = RenderTarget::new_color(Some(Framebuffer { id: 7 }), &color).unwrap();
    let recording = target.write(&ClearState::default(), || Recording::done(vec![]));
    assert_eq!(
        recording.commands,
        vec![
            Command::BindFramebuffer { target: 0x8CA9, framebuffer: Some(Framebuffer { id: 7 }) },
            Command::DrawBuffers { count: 1 },
            Command::BindAsColorTarget { texture: Texture { id: 1 }, channel: 0 },
            Command::SetWriteMask { mask: WriteMask::color() },
            Command::ClearColor { red: 0, green: 0, blue: 0, alpha: 0x3F80_0000 },
            Command::Clear { mask: 0x4000 },
            Command::GenerateMipMaps { texture: Texture { id: 1 } },
        ]
    );
}

#[test]
fn a_rendering_that_fails_in_a_target_fills_no_levels() {
    let color = color_texture(1);
    let target = RenderTarget::new_color(Some(Framebuffer { id: 7 }), &color).unwrap();
    let recording = target.write(&ClearState::none(), || Recording {
        commands: vec![Command::ClearDepth { depth: 5 }],
        result: Err(Error::FailedToCreateMesh { message: "broken".to_string() }),
    });
    assert_eq!(
        recording.commands,
        vec![
            Command::BindFramebuffer { target: 0x8CA9, framebuffer: Some(Framebuffer { id: 7 }) },
            Command::DrawBuffers { count: 1 },
            Command::BindAsColorTarget { texture: Texture { id: 1 }, channel: 0 },
            closed_mask(),
            Command::Clear { mask: 0x100 },
            Command::ClearDepth { depth: 5 },
        ]
    );
    assert_eq!(recording.result, Err(Error::FailedToCreateMesh { message: "broken".to_string() }));
}

#[test]
fn the_copy_effects_start_out_uncompiled() {
    let effects = effects();
    assert_eq!(effects.copy, ImageEffect { program: Program { id: 100 } });
    assert_eq!(effects.copy_array, ImageEffect { program: Program { id: 200 } });
    assert!(!effects.copy_created);
    assert!(!effects.copy_array_created);
}

#[test]
fn the_copy_effect_is_compiled_once() {
    let mut effects = effects();
    let (effect, commands) = effects.get_copy_effect();
    assert_eq!(effect, ImageEffect { program: Program { id: 100 } });
    assert_eq!(
        commands,
        vec![Command::CreateImageEffect {
            effect: Program { id: 100 },
            source: EffectSource::Copy
        }]
    );
    assert!(effects.copy_created);
    assert!(!effects.copy_array_created);
    let (effect, commands) = effects.get_copy_effect();
    assert_eq!(effect, ImageEffect { program: Program { id: 100 } });
    assert!(commands.is_empty());
}

#[test]
fn the_copy_effect_for_stacks_is_compiled_once() {
    let mut effects = effects();
    let (effect, commands) = effects.get_copy_array_effect();
    assert_eq!(effect, ImageEffect { program: Program { id: 200 } });
    assert_eq!(
        commands,
        vec![Command::CreateImageEffect {
            effect: Program { id: 200 },
            source: EffectSource::CopyArray
        }]
    );
    assert!(!effects.copy_created);
    assert!(effects.copy_array_created);
    let (_, commands) = effects.get_copy_array_effect();
    assert!(commands.is_empty());
}

#[test]
fn the_copy_shaders_read_what_the_copies_hand_them() {
    assert_eq!(
        COPY_EFFECT_SOURCE,
        "
                uniform sampler2D colorMap;
                uniform sampler2D depthMap;
                in vec2 uv;
                layout (location = 0) out vec4 color;
                void main()
                {
                    color = texture(colorMap, uv);
                    gl_FragDepth = texture(depthMap, uv).r;
                }"
    );
    assert_eq!(
        COPY_ARRAY_EFFECT_SOURCE,
        "
                uniform sampler2DArray colorMap;
                uniform sampler2DArray depthMap;
                uniform int colorLayer;
                uniform int depthLayer;
                in vec2 uv;
                layout (location = 0) out vec4 color;
                void main()
                {
                    color = texture(colorMap, vec3(uv, colorLayer));
                    gl_FragDepth = texture(depthMap, vec3(uv, depthLayer)).r;
                }"
    );
}

#[test]
fn copying_both_to_the_screen_hands_over_both_textures() {
    let color = color_texture(1);
    let depth = depth_texture(2);
    let target = RenderTarget::new(Some(Framebuffer { id: 7 }), &color, &depth).unwrap();
    let mut effects = effects();
    let recording = target.copy_to_screen(&mut effects, viewport());
    let effect = Program { id: 100 };
    assert_eq!(
        recording.commands,
        vec![
            Command::BindFramebuffer { target: 0x8CA9, framebuffer: None },
            closed_mask(),
            Command::Clear { mask: 0x100 },
            Command::CreateImageEffect { effect, source: EffectSource::Copy },
            Command::UseTexture {
                program: effect,
                texture: Texture { id: 1 },
                name: Name::ColorMap
            },
            Command::UseTexture {
                program: effect,
                texture: Texture { id: 2 },
                name: Name::DepthMap
            },
            Command::Apply {
                effect,
                render_states: states(WriteMask::color_and_depth()),
                viewport: viewport()
            },
        ]
    );
    assert_eq!(recording.result, Ok(()));
    assert!(effects.copy_created);
    let again = target.copy_to_screen(&mut effects, viewport());
    assert_eq!(again.commands.len(), 6);
    assert_eq!(again.commands[3], recording.commands[4]);
}

#[test]
fn copying_colour_to_the_screen_writes_colour_only() {
    let color = color_texture(1);
    let depth = depth_texture(2);
    let target = RenderTarget::new(Some(Framebuffer { id: 7 }), &color, &depth).unwrap();
    let mut effects = effects();
    effects.copy_created = true;
    let recording = target.copy_color_to_screen(&mut effects, viewport());
    let effect = Program { id: 100 };
    assert_eq!(
        recording.commands,
        vec![
            Command::BindFramebuffer { target: 0x8CA9, framebuffer: None },
            closed_mask(),
            Command::Clear { mask: 0x100 },
            Command::UseTexture {
                program: effect,
                texture: Texture { id: 1 },
                name: Name::ColorMap
            },
            Command::Apply {
                effect,
                render_states: states(WriteMask::color()),
                viewport: viewport()
            },
        ]
    );
    assert_eq!(recording.result, Ok(()));
}

#[test]
fn copying_depth_to_the_screen_writes_depth_only() {
    let depth = depth_texture(2);
    let target = RenderTarget::new_depth(Some(Framebuffer { id: 7 }), &depth).unwrap();
    let mut effects = effects();
    effects.copy_created = true;
    let recording = target.copy_depth_to_screen(&mut effects, viewport());
    let effect = Program { id: 100 };
    assert_eq!(
        recording.commands,
        vec![
            Command::BindFramebuffer { target: 0x8CA9, framebuffer: None },
            closed_mask(),
            Command::Clear { mask: 0x100 },
            Command::UseTexture {
                program: effect,
                texture: Texture { id: 2 },
                name: Name::DepthMap
            },
            Command::Apply {
                effect,
                render_states: states(WriteMask::depth()),
                viewport: viewport()
            },
        ]
    );
    assert_eq!(recording.result, Ok(()));
}

#[test]
fn copying_to_the_screen_what_the_target_lacks_is_refused() {
    let color = color_texture(1);
    let depth = depth_texture(2);
    let only_color = RenderTarget::new_color(Some(Framebuffer { id: 7 }), &color).unwrap();
    let only_depth = RenderTarget::new_depth(Some(Framebuffer { id: 8 }), &depth).unwrap();
    let mut effects = effects();
    assert_eq!(only_color.copy_to_screen(&mut effects, viewport()), refused(BOTH));
    assert_eq!(only_depth.copy_to_screen(&mut effects, viewport()), refused(BOTH));
    assert_eq!(only_depth.copy_color_to_screen(&mut effects, viewport()), refused(COLOR));
    assert_eq!(only_color.copy_depth_to_screen(&mut effects, viewport()), refused(DEPTH));
    assert!(!effects.copy_created);
    assert!(only_color.copy_color_to_screen(&mut effects, viewport()).is_ok());
    assert!(only_depth.copy_depth_to_screen(&mut effects, viewport()).is_ok());
}

#[test]
fn copying_both_to_another_target_writes_into_it() {
    let color = color_texture(1);
    let depth = depth_texture(2);
    let other_color = color_texture(3);
    let other_depth = depth_texture(4);
    let source = RenderTarget::new(Some(Framebuffer { id: 7 }), &color, &depth).unwrap();
    let other = RenderTarget::new(Some(Framebuffer { id: 9 }), &other_color, &other_depth).unwrap();
    let mut effects = effects();
    let recording = source.copy(&mut effects, &other, viewport());
    let effect = Program { id: 100 };
    assert_eq!(
        recording.commands,
        vec![
            Command::BindFramebuffer { target: 0x8CA9, framebuffer: Some(Framebuffer { id: 9 }) },
            Command::DrawBuffers { count: 1 },
            Command::BindAsColorTarget { texture: Texture { id: 3 }, channel: 0 },
            Command::BindAsDepthTarget { texture: Texture { id: 4 } },
            closed_mask(),
            Command::Clear { mask: 0x100 },
            Command::CreateImageEffect { effect, source: EffectSource::Copy },
            Command::UseTexture {
                program: effect,
                texture: Texture { id: 1 },
                name: Name::ColorMap
            },
            Command::UseTexture {
                program: effect,
                texture: Texture { id: 2 },
                name: Name::DepthMap
            },
            Command::Apply {
                effect,
                render_states: states(WriteMask::color_and_depth()),
                viewport: viewport()
            },
            Command::GenerateMipMaps { texture: Texture { id: 3 } },
        ]
    );
    assert_eq!(recording.result, Ok(()));
}

#[test]
fn copying_depth_to_a_depth_target_fills_no_levels() {
    let depth = depth_texture(2);
    let other_depth = depth_texture(4);
    let source = RenderTarget::new_depth(Some(Framebuffer { id: 7 }), &depth).unwrap();
    let other = RenderTarget::new_depth(Some(Framebuffer { id: 9 }), &other_depth).unwrap();
    let mut effects = effects();
    effects.copy_created = true;
    let recording = source.copy_depth(&mut effects, &other, viewport());
    let effect = Program { id: 100 };
    assert_eq!(
        recording.commands,
        vec![
            Command::BindFramebuffer { target: 0x8CA9, framebuffer: Some(Framebuffer { id: 9 }) },
            Command::BindAsDepthTarget { texture: Texture { id: 4 } },
            closed_mask(),
            Command::Clear { mask: 0x100 },
            Command::UseTexture {
                program: effect,
                texture: Texture { id: 2 },
                name: Name::DepthMap
            },
            Command::Apply {
                effect,
                render_states: states(WriteMask::depth()),
                viewport: viewport()
            },
        ]
    );
}

#[test]
fn copying_colour_to_a_colour_target_fills_its_levels() {
    let color = color_texture(1);
    let other_color = color_texture(3);
    let source = RenderTarget::new_color(Some(Framebuffer { id: 7 }), &color).unwrap();
    let other = RenderTarget::new_color(Some(Framebuffer { id: 9 }), &other_color).unwrap();
    let mut effects = effects();
    effects.copy_created = true;
    let recording = source.copy_color(&mut effects, &other, viewport());
    let effect = Program { id: 100 };
    assert_eq!(
        recording.commands,
        vec![
            Command::BindFramebuffer { target: 0x8CA9, framebuffer: Some(Framebuffer { id: 9 }) },
            Command::DrawBuffers { count: 1 },
            Command::BindAsColorTarget { texture: Texture { id: 3 }, channel: 0 },
            closed_mask(),
            Command::Clear { mask: 0x100 },
            Command::UseTexture {
                program: effect,
                texture: Texture { id: 1 },
                name: Name::ColorMap
            },
            Command::Apply {
                effect,
                render_states: states(WriteMask::color()),
                viewport: viewport()
            },
            Command::GenerateMipMaps { texture: Texture { id: 3 } },
        ]
    );
}

#[test]
fn copying_to_a_target_what_either_lacks_is_refused() {
    let color = color_texture(1);
    let depth = depth_texture(2);
    let full = RenderTarget::new(Some(Framebuffer { id: 6 }), &color, &depth).unwrap();
    let only_color = RenderTarget::new_color(Some(Framebuffer { id: 7 }), &color).unwrap();
    let only_depth = RenderTarget::new_depth(Some(Framebuffer { id: 8 }), &depth).unwrap();
    let mut effects = effects();
    assert_eq!(full.copy(&mut effects, &only_color, viewport()), refused(BOTH));
    assert_eq!(only_depth.copy(&mut effects, &full, viewport()), refused(BOTH));
    assert_eq!(full.copy_color(&mut effects, &only_depth, viewport()), refused(COLOR));
    assert_eq!(only_depth.copy_color(&mut effects, &full, viewport()), refused(COLOR));
    assert_eq!(full.copy_depth(&mut effects, &only_color, viewport()), refused(DEPTH));
    assert_eq!(only_color.copy_depth(&mut effects, &full, viewport()), refused(DEPTH));
    assert!(!effects.copy_created);
    assert!(full.copy_color(&mut effects, &only_color, viewport()).is_ok());
    assert!(full.copy_depth(&mut effects, &only_depth, viewport()).is_ok());
    assert!(effects.copy_created);
}

#[test]
fn copies_by_channels_are_the_named_copies() {
    let color = color_texture(1);
    let depth = depth_texture(2);
    let full = RenderTarget::new(Some(Framebuffer { id: 6 }), &color, &depth).unwrap();
    let mut first = effects();
    let mut second = effects();
    assert_eq!(
        full.copy_channels_to_screen(&mut first, Channels::Color, viewport()),
        full.copy_color_to_screen(&mut second, viewport())
    );
    assert_eq!(
        full.copy_channels(&mut first, Channels::Depth, &full, viewport()),
        full.copy_depth(&mut second, &full, viewport())
    );
}

#[test]
fn deleting_a_target_frees_its_framebuffer() {
    let depth = depth_texture(2);
    let target = RenderTarget::new_depth(Some(Framebuffer { id: 7 }), &depth).unwrap();
    assert_eq!(target.delete(), Command::DeleteFramebuffer { framebuffer: Framebuffer { id: 7 } });
}
