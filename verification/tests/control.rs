use photo_frame::control::{
    validate_control_message, CommandRequest, ControlEvent, ControlMessageError,
    ControllerRegistration, DeviceCommand, IncomingControlMessage, RenderPresentation,
    RenderRequest, TransitionType,
};

fn message() -> IncomingControlMessage {
    IncomingControlMessage {
        media_url: None,
        transition_type: None,
        brightness: None,
        correlation_id: None,
        cmd: None,
        registration: None,
        queue: false,
    }
}

#[test]
fn parses_render_message_with_optional_metadata() {
    let event = validate_control_message(IncomingControlMessage {
        media_url: Some("https://example.com/photo.jpg".to_string()),
        transition_type: Some(TransitionType::Fade),
        brightness: Some(64),
        correlation_id: Some("abc123".to_string()),
        ..message()
    })
    .expect("render message should parse");

    assert_eq!(
        event,
        ControlEvent::Render(RenderRequest {
            media_url: "https://example.com/photo.jpg".to_string(),
            correlation_id: Some("abc123".to_string()),
            queue: false,
            presentation: RenderPresentation {
                transition_type: Some(TransitionType::Fade),
                brightness: Some(64),
            },
        })
    );
}

#[test]
fn parses_command_message() {
    let event = validate_control_message(IncomingControlMessage {
        cmd: Some(DeviceCommand::ReloadUi),
        correlation_id: Some("cmd-7".to_string()),
        ..message()
    })
    .expect("command message should parse");

    assert_eq!(
        event,
        ControlEvent::Command(CommandRequest {
            command: DeviceCommand::ReloadUi,
            correlation_id: Some("cmd-7".to_string()),
        })
    );
}

#[test]
fn rejects_metadata_without_media_url() {
    let error = validate_control_message(IncomingControlMessage {
        media_url: None,
        transition_type: Some(TransitionType::Cut),
        brightness: None,
        correlation_id: None,
        queue: false,
        cmd: Some(DeviceCommand::Reboot),
        registration: None,
    })
    .expect_err("command message should reject render metadata");

    assert_eq!(error, ControlMessageError::MetadataWithoutMediaUrl);
}

#[test]
fn rejects_brightness_out_of_range() {
    let error = validate_control_message(IncomingControlMessage {
        media_url: Some("https://example.com/photo.jpg".to_string()),
        brightness: Some(255),
        ..message()
    })
    .expect_err("brightness > 100 must fail validation");

    assert_eq!(error, ControlMessageError::InvalidBrightness(255));
}

#[test]
fn parses_registration_message() {
    let registration = ControllerRegistration {
        claimed: true,
        display_name: Some("Kitchen Frame".to_string()),
        message: Some("Claimed in Home Assistant".to_string()),
        frame_token: Some("tok-abc123".to_string()),
    };
    let event = validate_control_message(IncomingControlMessage {
        registration: Some(registration.clone()),
        ..message()
    })
    .expect("registration message should parse");

    assert_eq!(event, ControlEvent::Registration(registration));
}

#[test]
fn a_message_with_no_action_is_refused() {
    assert_eq!(validate_control_message(message()), Err(ControlMessageError::MissingAction));
}

#[test]
fn a_message_with_two_actions_is_refused() {
    let error = validate_control_message(IncomingControlMessage {
        media_url: Some("https://example.com/a.jpg".to_string()),
        cmd: Some(DeviceCommand::Reboot),
        ..message()
    });
    assert_eq!(error, Err(ControlMessageError::ConflictingAction));
}

#[test]
fn brightness_is_checked_before_anything_else() {
    let error = validate_control_message(IncomingControlMessage { brightness: Some(101), ..message() });
    assert_eq!(error, Err(ControlMessageError::InvalidBrightness(101)));
}

#[test]
fn a_blank_media_url_is_refused_and_a_padded_one_trimmed() {
    let blank = validate_control_message(IncomingControlMessage {
        media_url: Some(" \t\n".to_string()),
        ..message()
    });
    assert_eq!(blank, Err(ControlMessageError::EmptyMediaUrl));

    let padded = validate_control_message(IncomingControlMessage {
        media_url: Some("  https://example.com/a.jpg \n".to_string()),
        queue: true,
        brightness: Some(100),
        ..message()
    })
    .unwrap();
    match padded {
        ControlEvent::Render(request) => {
            assert_eq!(request.media_url, "https://example.com/a.jpg");
            assert!(request.queue);
            assert_eq!(request.presentation.brightness, Some(100));
        }
        other => panic!("expected a render, got {other:?}"),
    }
}

#[test]
fn registration_refuses_render_metadata() {
    let error = validate_control_message(IncomingControlMessage {
        registration: Some(ControllerRegistration {
            claimed: false,
            display_name: None,
            message: None,
            frame_token: None,
        }),
        brightness: Some(10),
        ..message()
    });
    assert_eq!(error, Err(ControlMessageError::MetadataWithoutMediaUrl));
}

#[test]
fn errors_describe_themselves() {
    assert_eq!(
        ControlMessageError::InvalidBrightness(255).describe(),
        "control message brightness must be between 0 and 100 inclusive, got 255"
    );
    assert_eq!(
        ControlMessageError::MissingAction.describe(),
        "control message must include either media_url or cmd"
    );
    assert_eq!(
        ControlMessageError::ConflictingAction.describe(),
        "control message cannot include both media_url and cmd"
    );
    assert_eq!(
        ControlMessageError::EmptyMediaUrl.describe(),
        "control message media_url cannot be empty"
    );
    assert_eq!(
        ControlMessageError::MetadataWithoutMediaUrl.describe(),
        "control message metadata requires a media_url payload"
    );
    assert_eq!(
        ControlMessageError::InvalidJson("eof".to_string()).describe(),
        "invalid control message JSON: eof"
    );
}

#[test]
fn unicode_white_space_is_trimmed_from_the_address() {
    let event = validate_control_message(IncomingControlMessage {
        media_url: Some("\u{3000}\u{85}https://example.com/é.jpg\u{2028}\t".to_string()),
        ..message()
    })
    .unwrap();
    match event {
        ControlEvent::Render(request) => assert_eq!(request.media_url, "https://example.com/é.jpg"),
        other => panic!("expected a render, got {other:?}"),
    }
    let blank = validate_control_message(IncomingControlMessage {
        media_url: Some("\u{a0}\u{2000}\u{205f}".to_string()),
        ..message()
    });
    assert_eq!(blank, Err(ControlMessageError::EmptyMediaUrl));
}
