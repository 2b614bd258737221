use photo_frame::control::{validate_control_message, DeviceCommand, TransitionType};
use photo_frame::ha_bridge::{
    build_command_message, build_render_message, command_name, parse_device_command,
    parse_transition_type, transition_name, NativeParsedControlMessage,
};

#[test]
fn builds_render_payload() {
    let payload = build_render_message(
        "https://example.com/photo.jpg",
        Some("fade"),
        Some(55),
        Some("abc-1"),
    )
    .expect("render payload should build");

    let event = validate_control_message(payload).expect("built payload should parse");
    let parsed = NativeParsedControlMessage::from_event(event);
    assert_eq!(parsed.kind, "render");
    assert_eq!(parsed.media_url.as_deref(), Some("https://example.com/photo.jpg"));
    assert_eq!(parsed.transition_type.as_deref(), Some("fade"));
    assert_eq!(parsed.brightness, Some(55));
}

#[test]
fn builds_command_payload() {
    let payload =
        build_command_message("reload_ui", Some("cmd-2")).expect("command payload should build");

    let event = validate_control_message(payload).expect("built payload should parse");
    let parsed = NativeParsedControlMessage::from_event(event);
    assert_eq!(parsed.kind, "command");
    assert_eq!(parsed.command.as_deref(), Some("reload_ui"));
    assert_eq!(parsed.correlation_id.as_deref(), Some("cmd-2"));
}

#[test]
fn rejects_unknown_command() {
    let error =
        build_command_message("unsupported", None).expect_err("unsupported commands must fail");

    assert!(error.contains("unsupported device command"));
}

#[test]
fn unknown_transitions_are_refused() {
    let error = build_render_message("https://example.com/a.jpg", Some("wipe"), None, None)
        .expect_err("wipe is not a transition");
    assert_eq!(error, "unsupported transition_type: wipe");
}

#[test]
fn transition_names_round_trip() {
    for t in [
        TransitionType::Cut,
        TransitionType::Fade,
        TransitionType::SlideLeft,
        TransitionType::SlideRight,
    ] {
        assert_eq!(parse_transition_type(&transition_name(t)), Ok(t));
    }
    assert_eq!(transition_name(TransitionType::SlideLeft), "slide_left");
}

#[test]
fn command_names_round_trip() {
    for c in [DeviceCommand::Reboot, DeviceCommand::ReloadUi] {
        assert_eq!(parse_device_command(command_name(c)), Ok(c));
    }
    assert_eq!(parse_device_command("REBOOT"), Err("unsupported device command: REBOOT".to_string()));
}

#[test]
fn a_render_without_extras_flattens_to_nones() {
    let payload = build_render_message("https://example.com/a.jpg", None, None, None).unwrap();
    assert!(!payload.queue);
    let parsed = NativeParsedControlMessage::from_event(validate_control_message(payload).unwrap());
    assert_eq!(parsed.kind, "render");
    assert_eq!(parsed.transition_type, None);
    assert_eq!(parsed.brightness, None);
    assert_eq!(parsed.correlation_id, None);
    assert_eq!(parsed.command, None);
}
