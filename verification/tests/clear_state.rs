use three_d::context::consts::COLOR_ATTACHMENT0;
use three_d::context::consts::COLOR_BUFFER_BIT;
use three_d::context::consts::DEPTH_BUFFER_BIT;
use three_d::context::consts::DEPTH_COMPONENT;
use three_d::context::consts::DRAW_FRAMEBUFFER;
use three_d::context::consts::FLOAT;
use three_d::context::consts::READ_FRAMEBUFFER;
use three_d::context::consts::RGB;
use three_d::context::consts::UNSIGNED_BYTE;
use three_d::context::Command;
use three_d::math::MINUS_ONE;
use three_d::math::ONE;
use three_d::math::ZERO;
use three_d::render_target::clear;
use three_d::render_target::ClearState;
use three_d::states::WriteMask;

fn mask(red: bool, green: bool, blue: bool, alpha: bool, depth: bool) -> WriteMask {
    WriteMask { red, green, blue, alpha, depth }
}

#[test]
fn bit_patterns_are_those_of_the_numbers() {
    assert_eq!(ZERO, 0.0f32.to_bits());
    assert_eq!(ONE, 1.0f32.to_bits());
    assert_eq!(MINUS_ONE, (-1.0f32).to_bits());
}

#[test]
fn api_numbers_have_their_standard_values() {
    assert_eq!(READ_FRAMEBUFFER, 36008);
    assert_eq!(DRAW_FRAMEBUFFER, 36009);
    assert_eq!(COLOR_ATTACHMENT0, 36064);
    assert_eq!(DEPTH_BUFFER_BIT, 256);
    assert_eq!(COLOR_BUFFER_BIT, 16384);
    assert_eq!(RGB, 6407);
    assert_eq!(DEPTH_COMPONENT, 6402);
    assert_eq!(UNSIGNED_BYTE, 5121);
    assert_eq!(FLOAT, 5126);
}

#[test]
fn none_names_no_channel() {
    let state = ClearState::none();
    assert_eq!(state, ClearState { red: None, green: None, blue: None, alpha: None, depth: None });
}

#[test]
fn depth_names_the_depth_only() {
    let half = 0.5f32.to_bits();
    let state = ClearState::depth(half);
    assert_eq!(
        state,
        ClearState { red: None, green: None, blue: None, alpha: None, depth: Some(half) }
    );
}

#[test]
fn color_names_the_four_colour_channels_only() {
    let state = ClearState::color(1, 2, 3, 4);
    assert_eq!(
        state,
        ClearState { red: Some(1), green: Some(2), blue: Some(3), alpha: Some(4), depth: None }
    );
}

#[test]
fn color_and_depth_names_all_five() {
    let state = ClearState::color_and_depth(1, 2, 3, 4, 5);
    assert_eq!(
        state,
        ClearState { red: Some(1), green: Some(2), blue: Some(3), alpha: Some(4), depth: Some(5) }
    );
}

#[test]
fn default_is_opaque_black_at_depth_one() {
    let state = ClearState::default();
    assert_eq!(
        state,
        ClearState::color_and_depth(
            0.0f32.to_bits(),
            0.0f32.to_bits(),
            0.0f32.to_bits(),
            1.0f32.to_bits(),
            1.0f32.to_bits()
        )
    );
}

#[test]
fn clearing_nothing_closes_the_mask_and_fills_depth_only() {
    let commands = clear(&ClearState::none());
    assert_eq!(
        commands,
        vec![
            Command::SetWriteMask { mask: mask(false, false, false, false, false) },
            Command::Clear { mask: 0x100 },
        ]
    );
}

#[test]
fn clearing_by_default_fills_colour_and_depth() {
    let commands = clear(&ClearState::default());
    assert_eq!(
        commands,
        vec![
            Command::SetWriteMask { mask: mask(true, true, true, true, true) },
            Command::ClearColor { red: 0, green: 0, blue: 0, alpha: 0x3F80_0000 },
            Command::ClearDepth { depth: 0x3F80_0000 },
            Command::Clear { mask: 0x4100 },
        ]
    );
}

#[test]
fn clearing_colour_only_fills_colour_only() {
    let commands = clear(&ClearState::color(10, 20, 30, 40));
    assert_eq!(
        commands,
        vec![
            Command::SetWriteMask { mask: mask(true, true, true, true, false) },
            Command::ClearColor { red: 10, green: 20, blue: 30, alpha: 40 },
            Command::Clear { mask: 0x4000 },
        ]
    );
}

#[test]
fn clearing_depth_only_fills_depth_only() {
    let commands = clear(&ClearState::depth(77));
    assert_eq!(
        commands,
        vec![
            Command::SetWriteMask { mask: mask(false, false, false, false, true) },
            Command::ClearDepth { depth: 77 },
            Command::Clear { mask: 0x100 },
        ]
    );
}

#[test]
fn an_unnamed_colour_channel_is_filled_with_zero_and_an_unnamed_alpha_with_one() {
    let state = ClearState { red: None, green: Some(9), blue: None, alpha: None, depth: None };
    let commands = clear(&state);
    assert_eq!(
        commands,
        vec![
            Command::SetWriteMask { mask: mask(false, true, false, false, false) },
            Command::ClearColor {
                red: 0.0f32.to_bits(),
                green: 9,
                blue: 0.0f32.to_bits(),
                alpha: 1.0f32.to_bits(),
            },
            Command::Clear { mask: 0x4000 },
        ]
    );
}

#[test]
fn a_single_named_alpha_with_depth_fills_both_buffers() {
    let state = ClearState { red: None, green: None, blue: None, alpha: Some(5), depth: Some(6) };
    let commands = clear(&state);
    assert_eq!(
        commands,
        vec![
            Command::SetWriteMask { mask: mask(false, false, false, true, true) },
            Command::ClearColor { red: 0, green: 0, blue: 0, alpha: 5 },
            Command::ClearDepth { depth: 6 },
            Command::Clear { mask: COLOR_BUFFER_BIT | DEPTH_BUFFER_BIT },
        ]
    );
}

#[test]
fn write_masks_name_what_they_say() {
    assert_eq!(WriteMask::color_and_depth(), mask(true, true, true, true, true));
    assert_eq!(WriteMask::color(), mask(true, true, true, true, false));
    assert_eq!(WriteMask::depth(), mask(false, false, false, false, true));
    assert_eq!(WriteMask::none(), mask(false, false, false, false, false));
    assert_eq!(WriteMask::default(), WriteMask::color_and_depth());
}
