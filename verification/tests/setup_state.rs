use photo_frame::setup_state::{
    checkpoint_for_network_phase, decode_app_phase, decode_network_phase, encode_app_phase,
    encode_network_phase, PersistedSetupState, SetupCheckpoint, SetupStateError,
    FLAG_BROWSER_VERIFIED, STATE_RECORD_LEN,
};
use photo_frame::state::{AppPhase, AppState, NetworkPhase};

#[test]
fn a_record_reads_back_as_written() {
    let mut app = AppState::new();
    app.begin_setup();
    app.set_network_phase(NetworkPhase::Connected);
    let record = PersistedSetupState::from_app_state(SetupCheckpoint::NetworkConnected, &app, true);
    assert_eq!(record.flags, FLAG_BROWSER_VERIFIED);
    let bytes = record.encode();
    assert_eq!(bytes, [b'F', b'S', b'T', b'S', 1, 6, 2, 4, FLAG_BROWSER_VERIFIED]);
    assert_eq!(PersistedSetupState::decode(&bytes), Ok(record));
}

#[test]
fn every_checkpoint_survives_the_byte_round_trip() {
    for b in 0u8..=255 {
        match SetupCheckpoint::from_byte(b) {
            Some(c) => assert_eq!(c.to_byte(), b),
            None => assert!(b == 0 || b > 12),
        }
    }
    assert_eq!(SetupCheckpoint::Ready.as_str(), "ready");
    assert_eq!(SetupCheckpoint::BootStarted.as_str(), "boot-started");
}

#[test]
fn phases_survive_the_byte_round_trip() {
    for p in [AppPhase::Splash, AppPhase::Setup, AppPhase::Ready] {
        assert_eq!(decode_app_phase(encode_app_phase(&p)), Some(p));
    }
    for p in [NetworkPhase::Unprovisioned, NetworkPhase::Provisioning, NetworkPhase::Connected] {
        assert_eq!(decode_network_phase(encode_network_phase(&p)), Some(p));
    }
    assert_eq!(decode_network_phase(3), None);
    assert_eq!(decode_app_phase(0), None);
}

#[test]
fn bad_records_are_refused_with_the_first_fault() {
    let good = [b'F', b'S', b'T', b'S', 1, 12, 3, 4, 0];
    assert!(PersistedSetupState::decode(&good).is_ok());
    assert_eq!(
        PersistedSetupState::decode(&good[..8]),
        Err(SetupStateError::UnexpectedLength(8))
    );
    let mut b = good;
    b[0] = b'X';
    assert_eq!(PersistedSetupState::decode(&b), Err(SetupStateError::UnexpectedMagic));
    let mut b = good;
    b[4] = 2;
    assert_eq!(PersistedSetupState::decode(&b), Err(SetupStateError::UnsupportedVersion(2)));
    let mut b = good;
    b[5] = 13;
    assert_eq!(PersistedSetupState::decode(&b), Err(SetupStateError::InvalidCheckpoint(13)));
    let mut b = good;
    b[6] = 9;
    assert_eq!(PersistedSetupState::decode(&b), Err(SetupStateError::InvalidAppPhase(9)));
    let mut b = good;
    b[7] = 3;
    assert_eq!(PersistedSetupState::decode(&b), Err(SetupStateError::InvalidNetworkPhase(3)));
    assert_eq!(STATE_RECORD_LEN, 9);
}

#[test]
fn flags_are_summarised_in_bit_order() {
    let mut record = PersistedSetupState::from_app_state(SetupCheckpoint::Ready, &AppState::new(), false);
    assert_eq!(record.flags_summary(), "none");
    record.flags = 0b1_0101;
    assert_eq!(record.flags_summary(), "owner,browser-verified,local-url");
    record.flags = 0xFF;
    assert_eq!(record.flags_summary(), "owner,pairing-code,browser-verified,auth-code,local-url");
    record.flags = 0b1000;
    assert_eq!(record.flags_summary(), "auth-code");
}

#[test]
fn network_phases_map_to_checkpoints() {
    assert_eq!(checkpoint_for_network_phase(NetworkPhase::Provisioning), SetupCheckpoint::Provisioning);
    assert_eq!(checkpoint_for_network_phase(NetworkPhase::Connected), SetupCheckpoint::NetworkConnected);
    assert_eq!(checkpoint_for_network_phase(NetworkPhase::Unprovisioned), SetupCheckpoint::SetupRendered);
}
