use photo_frame::wifi::{
    ApNext, ApObservation, ApStartRetries, StationAttempt, StationNext, StationRetries,
    AP_START_ATTEMPTS, STA_CONNECT_RETRIES,
};
use photo_frame::wifi::{
    accept_after_retries, connect, current_ap_credentials, current_sta_ip, is_known_hosted_open_ap,
    judge_ap_attempt, scan, start_ap, stop_ap, ApVerdict, EffectiveAp,
};

fn eff(ssid: &str, password: &str, auth_open: bool) -> Option<EffectiveAp> {
    Some(EffectiveAp { ssid: ssid.to_string(), password: password.to_string(), auth_open })
}

#[test]
fn the_radios_fallback_network_is_recognised() {
    assert!(is_known_hosted_open_ap("ESP_1A2b3C", "", true));
    assert!(!is_known_hosted_open_ap("ESP_1A2b3C", "", false));
    assert!(!is_known_hosted_open_ap("ESP_1A2b3C", "pw", true));
    assert!(!is_known_hosted_open_ap("ESP_1A2b3", "", true));
    assert!(!is_known_hosted_open_ap("ESP_1A2b3G", "", true));
    assert!(!is_known_hosted_open_ap("esp_1A2b3C", "", true));
}

#[test]
fn an_access_point_is_judged_by_what_the_radio_reports() {
    assert_eq!(judge_ap_attempt("Frame-1A2B", "", &eff("Frame-1A2B", "", true)), ApVerdict::Matched);
    assert_eq!(
        judge_ap_attempt("Frame-1A2B", "longpassword", &eff("Frame-1A2B", "longpassword", false)),
        ApVerdict::Matched
    );
    assert_eq!(judge_ap_attempt("Frame-1A2B", "", &eff("Frame-1A2B", "", false)), ApVerdict::Mismatch);
    assert_eq!(judge_ap_attempt("Frame-1A2B", "", &eff("ESP_ABCDEF", "", true)), ApVerdict::HostedFallback);
    assert_eq!(judge_ap_attempt("Frame-1A2B", "", &eff("Other", "", true)), ApVerdict::Mismatch);
    assert_eq!(judge_ap_attempt("Frame-1A2B", "", &None), ApVerdict::Mismatch);
}

#[test]
fn after_retries_only_the_fallback_network_is_accepted() {
    assert!(accept_after_retries(&eff("ESP_000000", "", true)));
    assert!(!accept_after_retries(&eff("Frame-1A2B", "", true)));
    assert!(!accept_after_retries(&None));
}

#[test]
fn a_host_radio_pretends() {
    let networks = scan().unwrap();
    let names: Vec<&str> = networks.iter().map(|n| n.ssid.as_str()).collect();
    assert_eq!(names, ["Mock WiFi 1", "Mock WiFi 2", "Mock WiFi 3"]);
    assert!(connect("Home", "pw").is_ok());
    assert!(start_ap("Frame-0001", "").is_ok());
    assert!(stop_ap().is_ok());
    assert_eq!(current_ap_credentials(), Ok(None));
    assert_eq!(current_sta_ip(), Ok(None));
}


#[test]
fn joining_is_retried_then_reported_with_the_last_error() {
    let mut tries = StationRetries::new("Home");
    for _ in 1..STA_CONNECT_RETRIES {
        assert_eq!(tries.record(StationAttempt::Failed("no ip".to_string())), StationNext::Retry);
    }
    assert_eq!(
        tries.record(StationAttempt::Failed("auth expired".to_string())),
        StationNext::GiveUp("failed to connect to ssid 'Home' after 5 attempts: auth expired".to_string())
    );

    let mut tries = StationRetries::new("Home");
    assert_eq!(tries.record(StationAttempt::Failed("busy".to_string())), StationNext::Retry);
    assert_eq!(tries.record(StationAttempt::Joined), StationNext::Connected);
}

fn running(ssid: &str, password: &str, auth_open: bool) -> ApObservation {
    ApObservation::Running(EffectiveAp { ssid: ssid.to_string(), password: password.to_string(), auth_open })
}

#[test]
fn an_access_point_running_as_asked_is_accepted_at_once() {
    let mut tries = ApStartRetries::new("Frame-1A2B", "");
    assert_eq!(tries.record(running("Frame-1A2B", "", true)), ApNext::Started);
    let mut tries = ApStartRetries::new("Frame-1A2B", "");
    assert_eq!(tries.record(ApObservation::Unreadable), ApNext::Retry);
    assert_eq!(tries.record(running("ESP_12AB34", "", true)), ApNext::Fallback);
}

#[test]
fn an_access_point_with_unknown_security_is_refused_after_retries() {
    let mut tries = ApStartRetries::new("Frame-1A2B", "");
    assert_eq!(tries.record(running("Other", "sécret", false)), ApNext::Retry);
    for _ in 2..AP_START_ATTEMPTS {
        assert_eq!(tries.record(ApObservation::NotAccessPoint), ApNext::Retry);
    }
    assert_eq!(
        tries.record(ApObservation::NotAccessPoint),
        ApNext::GiveUp(
            "failed to apply AP credentials after retries; refusing to continue with unknown AP security; \
             attempt 1: active ssid='Other', password_len=7, protected=true"
                .to_string()
        )
    );

    let mut tries = ApStartRetries::new("Frame-1A2B", "");
    for _ in 1..AP_START_ATTEMPTS {
        tries.record(ApObservation::Unreadable);
    }
    assert_eq!(
        tries.record(ApObservation::Unreadable),
        ApNext::GiveUp(
            "failed to apply AP credentials after retries; refusing to continue with unknown AP security; \
             attempt 5: unable to read active AP configuration"
                .to_string()
        )
    );
}

#[test]
fn with_nothing_observed_the_refusal_says_so() {
    let mut tries = ApStartRetries::new("Frame-1A2B", "pw");
    for _ in 1..AP_START_ATTEMPTS {
        tries.record(ApObservation::NotAccessPoint);
    }
    assert_eq!(
        tries.record(ApObservation::NotAccessPoint),
        ApNext::GiveUp(
            "failed to apply AP credentials after retries; refusing to continue with unknown AP security; \
             no AP configuration observed"
                .to_string()
        )
    );
}
