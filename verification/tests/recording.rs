use three_d::context::Command;
use three_d::context::Name;
use three_d::context::Recording;
use three_d::error::Error;

#[test]
fn a_new_recording_is_empty_and_fine() {
    let recording = Recording::new();
    assert!(recording.commands.is_empty());
    assert_eq!(recording.result, Ok(()));
    assert!(recording.is_ok());
}

#[test]
fn a_failed_recording_has_issued_nothing() {
    let recording =
        Recording::failed(Error::FailedToCreateFramebuffer { message: "x".to_string() });
    assert!(recording.commands.is_empty());
    assert!(!recording.is_ok());
    assert_eq!(
        recording.result,
        Err(Error::FailedToCreateFramebuffer { message: "x".to_string() })
    );
}

#[test]
fn what_follows_a_success_is_appended() {
    let first = Recording::done(vec![Command::ClearDepth { depth: 1 }]);
    let second = Recording {
        commands: vec![Command::ClearDepth { depth: 2 }],
        result: Err(Error::FailedToCreateMesh { message: "m".to_string() }),
    };
    let both = first.followed_by(second);
    assert_eq!(
        both.commands,
        vec![Command::ClearDepth { depth: 1 }, Command::ClearDepth { depth: 2 }]
    );
    assert_eq!(both.result, Err(Error::FailedToCreateMesh { message: "m".to_string() }));
}

#[test]
fn what_follows_a_failure_is_dropped() {
    let first = Recording {
        commands: vec![Command::ClearDepth { depth: 1 }],
        result: Err(Error::FailedToCreateMesh { message: "m".to_string() }),
    };
    let second = Recording::done(vec![Command::ClearDepth { depth: 2 }]);
    let both = first.followed_by(second);
    assert_eq!(both.commands, vec![Command::ClearDepth { depth: 1 }]);
    assert_eq!(both.result, Err(Error::FailedToCreateMesh { message: "m".to_string() }));
}

#[test]
fn an_error_gives_its_message() {
    assert_eq!(
        Error::FailedToCopyFromRenderTarget { message: "a".to_string() }.message(),
        "a"
    );
    assert_eq!(Error::FailedToCreateFramebuffer { message: "b".to_string() }.message(), "b");
    assert_eq!(Error::FailedToCreateMesh { message: "c".to_string() }.message(), "c");
}

#[test]
fn names_are_the_identifiers_of_the_shaders() {
    assert_eq!(Name::ColorMap.as_str(), "colorMap");
    assert_eq!(Name::DepthMap.as_str(), "depthMap");
    assert_eq!(Name::ColorLayer.as_str(), "colorLayer");
    assert_eq!(Name::DepthLayer.as_str(), "depthLayer");
    assert_eq!(Name::ModelMatrix.as_str(), "modelMatrix");
    assert_eq!(Name::NormalMatrix.as_str(), "normalMatrix");
    assert_eq!(Name::Camera.as_str(), "Camera");
    assert_eq!(Name::Position.as_str(), "position");
    assert_eq!(Name::UvCoordinates.as_str(), "uv_coordinates");
    assert_eq!(Name::Normal.as_str(), "normal");
    assert_eq!(Name::Color.as_str(), "color");
    assert_eq!(Name::Tex.as_str(), "tex");
    assert_eq!(Name::Texture0.as_str(), "texture0");
    assert_eq!(Name::Gbuffer.as_str(), "gbuffer");
    assert_eq!(Name::Type.as_str(), "type");
    assert_eq!(Name::ViewProjectionInverse.as_str(), "viewProjectionInverse");
    assert_eq!(Name::EyePosition.as_str(), "eyePosition");
}
