use photo_frame::panel::{FrameTooSmall, PANEL_PIXELS, PANEL_WIDTH};
use photo_frame::rendered_image::{push_rendered_image, rendered_image_snapshot, RenderedImage, RenderedImageState};
use photo_frame::ui::create_ui;
use photo_frame::state::{AppState, ControllerPhase, NetworkPhase};
use photo_frame::ui::{
    controller_state_snapshot, copy_phase, same_screen, set_controller_phase, sync_screen,
    wanted_screen, ControllerState, Showing,
};

#[test]
fn controller_phase_changes_bump_the_generation() {
    let mut state = ControllerState::new();
    assert_eq!(controller_state_snapshot(&state).generation, 0);
    set_controller_phase(&mut state, ControllerPhase::Searching);
    set_controller_phase(&mut state, ControllerPhase::Searching);
    let snap = controller_state_snapshot(&state);
    assert_eq!(snap.generation, 2);
    assert_eq!(snap.phase, ControllerPhase::Searching);
    let e = ControllerPhase::Error("x".to_string());
    assert_eq!(copy_phase(&e), e);
}

#[test]
fn a_photo_wins_over_every_setup_screen() {
    let mut app = AppState::new();
    app.set_network_phase(NetworkPhase::Provisioning);
    assert!(matches!(wanted_screen(Some(9), &app, &ControllerPhase::NotStarted), Showing::Photo(9)));
}

#[test]
fn setup_screens_follow_the_state() {
    let mut app = AppState::new();
    assert!(matches!(wanted_screen(None, &app, &ControllerPhase::NotStarted), Showing::Starting));

    app.set_provisioning_details("Frame-1A2B".to_string(), String::new());
    app.set_network_phase(NetworkPhase::Provisioning);
    match wanted_screen(None, &app, &ControllerPhase::NotStarted) {
        Showing::WifiSetup(name) => assert_eq!(name, "Frame-1A2B"),
        other => panic!("expected the Wi-Fi setup screen, got {other:?}"),
    }

    app.set_network_phase(NetworkPhase::Connected);
    match wanted_screen(None, &app, &ControllerPhase::AwaitingConfiguration) {
        Showing::AwaitingAdoption(id) => assert_eq!(id, "unknown"),
        other => panic!("expected the adoption screen, got {other:?}"),
    }
    app.set_device_identity("frame-42".to_string(), "Hall".to_string());
    match wanted_screen(None, &app, &ControllerPhase::AwaitingConfiguration) {
        Showing::AwaitingAdoption(id) => assert_eq!(id, "frame-42"),
        other => panic!("expected the adoption screen, got {other:?}"),
    }
    assert!(matches!(wanted_screen(None, &app, &ControllerPhase::Connected), Showing::Ready));
}

#[test]
fn provisioning_without_a_name_shows_the_default() {
    let mut app = AppState::new();
    app.set_network_phase(NetworkPhase::Provisioning);
    match wanted_screen(None, &app, &ControllerPhase::NotStarted) {
        Showing::WifiSetup(name) => assert_eq!(name, "Photo Frame setup"),
        other => panic!("expected the Wi-Fi setup screen, got {other:?}"),
    }
}

#[test]
fn an_unchanged_screen_is_not_redrawn() {
    let app = AppState::new();
    let mut showing = Showing::Nothing;
    assert!(sync_screen(&mut showing, None, &app, &ControllerPhase::NotStarted));
    assert!(matches!(showing, Showing::Starting));
    assert!(!sync_screen(&mut showing, None, &app, &ControllerPhase::NotStarted));
    assert!(sync_screen(&mut showing, Some(1), &app, &ControllerPhase::NotStarted));
    assert!(!sync_screen(&mut showing, Some(1), &app, &ControllerPhase::NotStarted));
    assert!(sync_screen(&mut showing, Some(2), &app, &ControllerPhase::NotStarted));
    assert!(matches!(showing, Showing::Photo(2)));
}

#[test]
fn screens_compare_by_what_they_show() {
    assert!(same_screen(&Showing::WifiSetup("a".into()), &Showing::WifiSetup("a".into())));
    assert!(!same_screen(&Showing::WifiSetup("a".into()), &Showing::WifiSetup("b".into())));
    assert!(!same_screen(&Showing::WifiSetup("a".into()), &Showing::AwaitingAdoption("a".into())));
    assert!(same_screen(&Showing::Photo(3), &Showing::Photo(3)));
    assert!(!same_screen(&Showing::Photo(3), &Showing::Photo(4)));
}


#[test]
fn a_queued_photo_is_presented_once_and_rotated_onto_the_panel() {
    let mut frame = create_ui();
    let app = AppState::new();
    let mut queue = RenderedImageState::new();
    let mut bytes = vec![0u8; PANEL_PIXELS * 2];
    bytes[0] = 0x1F; // top-left pixel blue
    push_rendered_image(&mut queue, RenderedImage::from_rgb565_bytes(&bytes).unwrap());
    let snap = rendered_image_snapshot(&queue);

    assert_eq!(frame.sync(&app, &snap, &ControllerPhase::NotStarted), Ok(false));
    assert!(matches!(frame.showing, Showing::Photo(1)));
    assert_eq!(frame.panel.rotated()[PANEL_WIDTH - 1], 0x001F);
    assert_eq!(frame.sync(&app, &snap, &ControllerPhase::NotStarted), Ok(false));
}

#[test]
fn a_small_photo_is_refused_by_the_panel() {
    let mut frame = create_ui();
    let app = AppState::new();
    let mut queue = RenderedImageState::new();
    push_rendered_image(&mut queue, RenderedImage::new(2, 2, vec![1, 2, 3, 4]).unwrap());
    let snap = rendered_image_snapshot(&queue);
    assert_eq!(frame.sync(&app, &snap, &ControllerPhase::NotStarted), Err(FrameTooSmall { pixels: 4 }));
    assert!(matches!(frame.showing, Showing::Nothing));
}

#[test]
fn without_a_photo_the_setup_screen_is_asked_for_once() {
    let mut frame = create_ui();
    let mut app = AppState::new();
    let empty = rendered_image_snapshot(&RenderedImageState::new());
    assert_eq!(frame.sync(&app, &empty, &ControllerPhase::NotStarted), Ok(true));
    assert!(matches!(frame.showing, Showing::Starting));
    assert_eq!(frame.sync(&app, &empty, &ControllerPhase::NotStarted), Ok(false));
    app.set_network_phase(NetworkPhase::Connected);
    assert_eq!(frame.sync(&app, &empty, &ControllerPhase::Connected), Ok(true));
    assert!(matches!(frame.showing, Showing::Ready));
}
