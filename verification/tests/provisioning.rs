use photo_frame::portal::ConnectState;
use photo_frame::provisioning::{
    ap_ssid_from_suffix, create_provisioning_manager, generate_ap_password,
    get_provisioning_ap_details, step, ProvisioningAction, ProvisioningEvent, ProvisioningState,
};
use photo_frame::state::NetworkPhase;

fn tick(configured: Option<(&str, &str)>, portal: ConnectState) -> ProvisioningEvent {
    ProvisioningEvent::Tick {
        configured: configured.map(|(s, p)| (s.to_string(), p.to_string())),
        portal,
    }
}

#[test]
fn built_in_credentials_are_tried_first() {
    let (state, action) = step(ProvisioningState::NotStarted, tick(Some(("Home", "pw")), ConnectState::NotConnected));
    assert_eq!(
        action,
        ProvisioningAction::ConnectStation { ssid: "Home".to_string(), password: "pw".to_string(), stop_ap: false }
    );
    let (state, action) = step(state, ProvisioningEvent::StationConnected);
    assert_eq!(action, ProvisioningAction::Report(NetworkPhase::Connected));
    assert_eq!(state, ProvisioningState::Finished { ssid: "Home".to_string(), password: "pw".to_string() });
}

#[test]
fn without_credentials_the_setup_network_comes_up_and_the_owner_chooses() {
    let (state, action) = step(ProvisioningState::NotStarted, tick(None, ConnectState::NotConnected));
    assert_eq!(action, ProvisioningAction::StartAp);
    let (state, action) = step(
        state,
        ProvisioningEvent::ApStarted { ssid: "Frame-1A2B".to_string(), password: String::new() },
    );
    assert_eq!(action, ProvisioningAction::Report(NetworkPhase::Provisioning));
    assert_eq!(
        get_provisioning_ap_details(&state),
        Some(("Frame-1A2B".to_string(), String::new()))
    );

    // Nothing chosen yet: stay in setup.
    let (state, action) = step(state, tick(None, ConnectState::NotConnected));
    assert_eq!(action, ProvisioningAction::Report(NetworkPhase::Provisioning));

    // The owner picks a network; a failure returns to the same setup network.
    let chosen = ConnectState::Connecting("Home".to_string(), "s3cret".to_string());
    let (state, action) = step(state, tick(None, chosen.clone()));
    assert_eq!(
        action,
        ProvisioningAction::ConnectStation { ssid: "Home".to_string(), password: "s3cret".to_string(), stop_ap: true }
    );
    assert_eq!(get_provisioning_ap_details(&state), Some(("Frame-1A2B".to_string(), String::new())));
    let (state, action) = step(state, ProvisioningEvent::StationFailed);
    assert_eq!(
        action,
        ProvisioningAction::RestartAp { ssid: "Frame-1A2B".to_string(), password: String::new() }
    );

    let (state, _) = step(state, tick(None, chosen));
    let (state, action) = step(state, ProvisioningEvent::StationConnected);
    assert_eq!(action, ProvisioningAction::FinishPortal);
    assert_eq!(get_provisioning_ap_details(&state), None);

    // Joined for good.
    let (state, action) = step(state, tick(Some(("Other", "x")), ConnectState::NotConnected));
    assert_eq!(action, ProvisioningAction::Report(NetworkPhase::Connected));
    assert_eq!(state, ProvisioningState::Finished { ssid: "Home".to_string(), password: "s3cret".to_string() });
}

#[test]
fn a_failed_built_in_network_falls_back_to_setup() {
    let (state, _) = step(ProvisioningState::NotStarted, tick(Some(("Home", "pw")), ConnectState::NotConnected));
    let (state, action) = step(state, ProvisioningEvent::StationFailed);
    assert_eq!(action, ProvisioningAction::StartAp);
    assert_eq!(state, ProvisioningState::StartingAp);
}

#[test]
fn an_unexpected_event_changes_nothing() {
    let (state, action) = step(ProvisioningState::NotStarted, ProvisioningEvent::StationConnected);
    assert_eq!(state, ProvisioningState::NotStarted);
    assert_eq!(action, ProvisioningAction::Report(NetworkPhase::Unprovisioned));
}

#[test]
fn the_setup_network_is_named_with_four_hex_digits_and_is_open() {
    assert_eq!(ap_ssid_from_suffix(0x1A2B), "Frame-1A2B");
    assert_eq!(ap_ssid_from_suffix(0x00f), "Frame-000F");
    assert_eq!(ap_ssid_from_suffix(0xFFFF), "Frame-FFFF");
    assert_eq!(generate_ap_password(), "");
}

#[test]
fn a_host_without_a_radio_is_always_connected() {
    let mut manager = create_provisioning_manager();
    assert_eq!(manager.ensure_network(), NetworkPhase::Connected);
    assert_eq!(manager.get_provisioning_ap_details(), None);
}
