use photo_frame::endpoint::{control_plane_address, endpoint_address, EndpointError};

#[test]
fn a_ws_address_becomes_host_and_port() {
    assert_eq!(
        endpoint_address("ws://homeassistant.local:8765/ws").as_deref(),
        Ok("homeassistant.local:8765")
    );
}

#[test]
fn the_default_ws_port_is_used_when_none_is_given() {
    assert_eq!(endpoint_address("ws://frame-controller.lan/ws").as_deref(), Ok("frame-controller.lan:80"));
}

#[test]
fn only_plain_ws_is_accepted() {
    assert_eq!(endpoint_address("wss://homeassistant.local:8765/ws"), Err(EndpointError::UnsupportedScheme));
    assert_eq!(endpoint_address("http://x"), Err(EndpointError::UnsupportedScheme));
}

#[test]
fn garbage_is_not_an_address() {
    assert_eq!(endpoint_address("not a url"), Err(EndpointError::InvalidUrl));
    assert_eq!(endpoint_address(""), Err(EndpointError::InvalidUrl));
}

#[test]
fn parts_are_checked_scheme_then_host_then_port() {
    assert_eq!(control_plane_address("http", None, None), Err(EndpointError::UnsupportedScheme));
    assert_eq!(control_plane_address("ws", None, Some(1)), Err(EndpointError::MissingHost));
    assert_eq!(control_plane_address("ws", Some("h"), None), Err(EndpointError::MissingPort));
    assert_eq!(control_plane_address("ws", Some("10.0.0.2"), Some(65535)).as_deref(), Ok("10.0.0.2:65535"));
}
