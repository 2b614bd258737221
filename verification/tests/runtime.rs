use photo_frame::control::{
    CommandRequest, ControlEvent, ControlMessageError, ControllerRegistration, DeviceCommand,
    OutboundStatusMessage, RenderPresentation, RenderRequest, ScreenStatus,
};
use photo_frame::runtime::{
    command_finished, local_photos_active, new_control_plane, record_render_complete,
    record_render_error, record_render_request, render_finished, render_started, render_work,
    set_local_photos_active, media_plan, ExponentialBackoff, MediaPlan, PhotoSource, PlaneAction, PlaneEvent, PlaneStage,
    RenderWork, TransportCommand, WebSocketControlPlaneTransport,
};
use photo_frame::state::{AppState, ControllerPhase};
use std::time::Duration;

#[test]
fn backoff_doubles_until_maximum() {
    let mut backoff = ExponentialBackoff::new(1000, 8000);

    assert_eq!(Duration::from_millis(backoff.next_delay()), Duration::from_secs(1));
    assert_eq!(Duration::from_millis(backoff.next_delay()), Duration::from_secs(2));
    assert_eq!(Duration::from_millis(backoff.next_delay()), Duration::from_secs(4));
    assert_eq!(Duration::from_millis(backoff.next_delay()), Duration::from_secs(8));
    assert_eq!(Duration::from_millis(backoff.next_delay()), Duration::from_secs(8));

    backoff.reset();
    assert_eq!(Duration::from_millis(backoff.next_delay()), Duration::from_secs(1));
}

#[test]
fn backoff_never_overflows_near_the_top() {
    let mut backoff = ExponentialBackoff::new(u64::MAX / 2 + 1, u64::MAX);
    assert_eq!(backoff.next_delay(), u64::MAX / 2 + 1);
    assert_eq!(backoff.next_delay(), u64::MAX);
    assert_eq!(backoff.next_delay(), u64::MAX);
}

#[test]
fn backoff_does_not_reach_past_an_odd_maximum() {
    let mut backoff = ExponentialBackoff::new(3, 10);
    let delays: Vec<u64> = (0..4).map(|_| backoff.next_delay()).collect();
    assert_eq!(delays, vec![3, 6, 10, 10]);
}

fn request(url: &str) -> RenderRequest {
    RenderRequest {
        media_url: url.to_string(),
        correlation_id: Some("c-1".to_string()),
        presentation: RenderPresentation { transition_type: None, brightness: Some(30) },
        queue: false,
    }
}

#[test]
fn a_render_request_is_recorded_and_then_completed_or_failed() {
    let mut state = AppState::new();
    record_render_request(&mut state, &request("https://example.com/a.jpg"));
    assert_eq!(state.active_media_url.as_deref(), Some("https://example.com/a.jpg"));
    assert_eq!(state.display_brightness, Some(30));
    assert_eq!(state.screen_status, ScreenStatus::Rendering);
    record_render_complete(&mut state);
    assert_eq!(state.screen_status, ScreenStatus::Idle);
    record_render_error(&mut state);
    assert_eq!(state.screen_status, ScreenStatus::Error);
    assert_eq!(state.active_media_url.as_deref(), Some("https://example.com/a.jpg"));
}

#[test]
fn the_photo_source_switches_to_the_card_and_back() {
    let mut source = PhotoSource::new();
    assert!(!local_photos_active(&source));
    set_local_photos_active(&mut source, true);
    assert!(local_photos_active(&source));
    set_local_photos_active(&mut source, false);
    assert!(!local_photos_active(&source));
}

#[test]
fn the_transport_keeps_its_endpoint() {
    let t = WebSocketControlPlaneTransport::new("ws://homeassistant.local:8765/ws".to_string());
    assert_eq!(t.endpoint, "ws://homeassistant.local:8765/ws");
}

#[test]
fn the_control_plane_connects_reads_and_forwards() {
    let mut plane = new_control_plane();
    assert!(matches!(plane.stage, PlaneStage::Connecting));

    let step = plane.step(PlaneEvent::Connected);
    assert_eq!(step.phase, Some(ControllerPhase::AwaitingConfiguration));
    assert!(matches!(step.action, PlaneAction::CheckCommands));

    let step = plane.step(PlaneEvent::Command(None));
    assert_eq!(step.phase, None);
    assert!(matches!(step.action, PlaneAction::Read));

    let event = ControlEvent::Render(request("https://example.com/b.jpg"));
    let step = plane.step(PlaneEvent::Message(Ok(event.clone())));
    assert_eq!(step.phase, Some(ControllerPhase::Connected));
    match step.action {
        PlaneAction::Forward(forwarded) => assert_eq!(forwarded, event),
        other => panic!("expected a forward, got {other:?}"),
    }

    let step = plane.step(PlaneEvent::Forwarded);
    assert!(matches!(step.action, PlaneAction::CheckCommands));
}

#[test]
fn the_control_plane_sends_queued_status_before_reading() {
    let mut plane = new_control_plane();
    plane.step(PlaneEvent::Connected);
    let status = OutboundStatusMessage::PhotoRequested { wanted: 3, cached: 45 };
    let step = plane.step(PlaneEvent::Command(Some(TransportCommand::SendStatus(status.clone()))));
    match step.action {
        PlaneAction::Send(sent) => assert_eq!(sent, status),
        other => panic!("expected a send, got {other:?}"),
    }
    let step = plane.step(PlaneEvent::Sent);
    assert!(matches!(step.action, PlaneAction::Read));
}

#[test]
fn registration_sets_the_phase_by_whether_the_frame_is_claimed() {
    let mut plane = new_control_plane();
    plane.step(PlaneEvent::Connected);
    plane.step(PlaneEvent::Command(None));
    let unclaimed = ControllerRegistration {
        claimed: false,
        display_name: None,
        message: None,
        frame_token: None,
    };
    let step = plane.step(PlaneEvent::Message(Ok(ControlEvent::Registration(unclaimed))));
    assert_eq!(step.phase, Some(ControllerPhase::AwaitingConfiguration));
    assert!(matches!(step.action, PlaneAction::CheckCommands));

    plane.step(PlaneEvent::Command(None));
    let claimed = ControllerRegistration {
        claimed: true,
        display_name: Some("Kitchen Frame".to_string()),
        message: None,
        frame_token: Some("tok".to_string()),
    };
    let step = plane.step(PlaneEvent::Message(Ok(ControlEvent::Registration(claimed))));
    assert_eq!(step.phase, Some(ControllerPhase::Connected));
}

#[test]
fn an_invalid_message_is_dropped_and_reading_goes_on() {
    let mut plane = new_control_plane();
    plane.step(PlaneEvent::Connected);
    plane.step(PlaneEvent::Command(None));
    let step = plane.step(PlaneEvent::Message(Err(ControlMessageError::MissingAction)));
    assert_eq!(step.phase, None);
    assert!(matches!(step.action, PlaneAction::CheckCommands));
}

#[test]
fn failures_back_off_and_a_connection_resets_the_backoff() {
    let mut plane = new_control_plane();
    let mut delays = Vec::new();
    for _ in 0..7 {
        let step = plane.step(PlaneEvent::ConnectFailed);
        assert_eq!(step.phase, Some(ControllerPhase::Searching));
        match step.action {
            PlaneAction::Wait(ms) => delays.push(ms),
            other => panic!("expected a wait, got {other:?}"),
        }
        let step = plane.step(PlaneEvent::WaitEnded { shutdown: false });
        assert!(matches!(step.action, PlaneAction::Connect));
    }
    assert_eq!(delays, vec![1000, 2000, 4000, 8000, 16000, 30000, 30000]);

    plane.step(PlaneEvent::Connected);
    plane.step(PlaneEvent::Command(None));
    let step = plane.step(PlaneEvent::ReadFailed);
    assert!(matches!(step.action, PlaneAction::Wait(1000)));
}

#[test]
fn a_shutdown_or_an_unexpected_event_stops_the_loop() {
    let mut plane = new_control_plane();
    plane.step(PlaneEvent::ConnectFailed);
    let step = plane.step(PlaneEvent::WaitEnded { shutdown: true });
    assert!(matches!(step.action, PlaneAction::Stop));
    assert!(matches!(plane.stage, PlaneStage::Stopped));

    let mut plane = new_control_plane();
    let step = plane.step(PlaneEvent::Sent);
    assert!(matches!(step.action, PlaneAction::Stop));
    assert!(matches!(plane.stage, PlaneStage::Stopped));
}

#[test]
fn render_work_follows_the_event() {
    assert_eq!(render_work(&ControlEvent::Render(request("u"))), RenderWork::Render);
    let reload = ControlEvent::Command(CommandRequest { command: DeviceCommand::ReloadUi, correlation_id: None });
    assert_eq!(render_work(&reload), RenderWork::ReloadUi);
    let reboot = ControlEvent::Command(CommandRequest { command: DeviceCommand::Reboot, correlation_id: None });
    assert_eq!(render_work(&reboot), RenderWork::Reboot);
}

#[test]
fn statuses_report_what_happened() {
    let started = render_started(&request("https://example.com/a.jpg"));
    assert_eq!(
        started,
        OutboundStatusMessage::RenderStarted {
            media_url: "https://example.com/a.jpg".to_string(),
            correlation_id: Some("c-1".to_string()),
        }
    );
    let failed = render_finished(request("https://example.com/a.jpg"), Err("download timed out".to_string()));
    assert_eq!(
        failed,
        OutboundStatusMessage::Error {
            message: "render failed: download timed out".to_string(),
            correlation_id: Some("c-1".to_string()),
        }
    );
    let done = render_finished(request("https://example.com/a.jpg"), Ok(()));
    assert!(matches!(done, OutboundStatusMessage::RenderCompleted { .. }));
    let ack = command_finished(
        CommandRequest { command: DeviceCommand::Reboot, correlation_id: Some("x".to_string()) },
        Ok(()),
    );
    assert_eq!(
        ack,
        OutboundStatusMessage::CommandAcknowledged {
            cmd: DeviceCommand::Reboot,
            correlation_id: Some("x".to_string()),
        }
    );
    let err = command_finished(
        CommandRequest { command: DeviceCommand::ReloadUi, correlation_id: None },
        Err("no ui".to_string()),
    );
    assert!(matches!(err, OutboundStatusMessage::Error { ref message, .. } if message == "command failed: no ui"));
}

#[test]
fn card_photos_make_home_assistant_photos_acknowledged_not_fetched() {
    let mut source = PhotoSource::new();
    assert_eq!(media_plan(&source), MediaPlan::Fetch);
    set_local_photos_active(&mut source, true);
    assert_eq!(media_plan(&source), MediaPlan::Acknowledge);
}

#[test]
fn delays_follow_doubling_from_the_initial_delay_up_to_the_maximum() {
    let mut backoff = ExponentialBackoff::new(300, 5000);
    let delays: Vec<u64> = (0..7).map(|_| backoff.next_delay()).collect();
    assert_eq!(delays, vec![300, 600, 1200, 2400, 4800, 5000, 5000]);
}
