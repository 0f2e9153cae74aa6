use three_d::context::Command;
use three_d::context::Recording;
use three_d::error::Error;
use three_d::render_target::ClearState;
use three_d::render_target::Screen;
use three_d::states::Viewport;
use three_d::states::WriteMask;

fn closed_mask() -> WriteMask {
    WriteMask { red: false, green: false, blue: false, alpha: false, depth: false }
}

#[test]
fn writing_to_the_screen_binds_it_clears_and_then_renders() {
    let recording = Screen::write(&ClearState::depth(3), || {
        Recording::done(vec![Command::ClearDepth { depth: 99 }])
    });
    assert_eq!(
        recording.commands,
        vec![
            Command::BindFramebuffer { target: 0x8CA9, framebuffer: None },
            Command::SetWriteMask {
                mask: WriteMask { red: false, green: false, blue: false, alpha: false, depth: true },
            },
            Command::ClearDepth { depth: 3 },
            Command::Clear { mask: 0x100 },
            Command::ClearDepth { depth: 99 },
        ]
    );
    assert_eq!(recording.result, Ok(()));
}

#[test]
fn a_rendering_that_fails_on_the_screen_keeps_what_was_issued_and_its_error() {
    let recording = Screen::write(&ClearState::none(), || Recording {
        commands: vec![Command::ClearDepth { depth: 1 }],
        result: Err(Error::FailedToCreateMesh { message: "no".to_string() }),
    });
    assert_eq!(
        recording.commands,
        vec![
            Command::BindFramebuffer { target: 0x8CA9, framebuffer: None },
            Command::SetWriteMask { mask: closed_mask() },
            Command::Clear { mask: 0x100 },
            Command::ClearDepth { depth: 1 },
        ]
    );
    assert_eq!(recording.result, Err(Error::FailedToCreateMesh { message: "no".to_string() }));
}

#[test]
fn write_recording_is_write_on_a_finished_rendering() {
    let by_closure = Screen::write(&ClearState::default(), || Recording::done(vec![]));
    let by_value = Screen::write_recording(&ClearState::default(), Recording::done(vec![]));
    assert_eq!(by_closure, by_value);
    assert_eq!(by_value.commands.len(), 5);
}

#[test]
fn reading_colour_gives_three_zeroed_bytes_a_pixel() {
    let (pixels, commands) = Screen::read_color(Viewport { x: 2, y: 3, width: 4, height: 5 });
    assert_eq!(pixels, vec![0u8; 60]);
    assert_eq!(
        commands,
        vec![
            Command::BindFramebuffer { target: 0x8CA8, framebuffer: None },
            Command::ReadPixels {
                x: 2,
                y: 3,
                width: 4,
                height: 5,
                format: 0x1907,
                data_type: 0x1401,
            },
        ]
    );
}

#[test]
fn reading_colour_of_an_empty_viewport_gives_no_bytes() {
    let (pixels, commands) = Screen::read_color(Viewport::new_at_origo(0, 7));
    assert!(pixels.is_empty());
    assert_eq!(commands.len(), 2);
}

#[test]
fn a_corner_left_of_the_window_wraps_round() {
    let (_, commands) = Screen::read_color(Viewport { x: -1, y: -2, width: 1, height: 1 });
    assert_eq!(
        commands[1],
        Command::ReadPixels {
            x: 0xFFFF_FFFF,
            y: 0xFFFF_FFFE,
            width: 1,
            height: 1,
            format: 0x1907,
            data_type: 0x1401,
        }
    );
}

#[test]
fn reading_depth_gives_one_value_a_pixel() {
    let (length, commands) = Screen::read_depth(Viewport { x: 0, y: 1, width: 8, height: 2 });
    assert_eq!(length, 16);
    assert_eq!(
        commands,
        vec![
            Command::BindFramebuffer { target: 0x8CA8, framebuffer: None },
            Command::ReadPixels {
                x: 0,
                y: 1,
                width: 8,
                height: 2,
                format: 0x1902,
                data_type: 0x1406,
            },
        ]
    );
}

#[test]
fn a_viewport_at_the_origin_has_its_corner_there() {
    assert_eq!(Viewport::new_at_origo(3, 4), Viewport { x: 0, y: 0, width: 3, height: 4 });
}
