use photo_frame::sd_card::{capacity_mb, mount_status, SdStatus, ESP_ERR_NOT_FOUND, ESP_ERR_TIMEOUT, ESP_OK};

#[test]
fn mount_results_become_statuses() {
    assert_eq!(mount_status(ESP_OK, 30436), SdStatus::Ready { capacity_mb: 30436 });
    assert_eq!(mount_status(ESP_ERR_TIMEOUT, 0), SdStatus::NotPresent);
    assert_eq!(mount_status(ESP_ERR_NOT_FOUND, 0), SdStatus::NotPresent);
    assert_eq!(mount_status(-1, 0), SdStatus::Failed("mount failed (esp_err -1)".to_string()));
    assert_eq!(mount_status(0x103, 0), SdStatus::Failed("mount failed (esp_err 259)".to_string()));
}

#[test]
fn statuses_are_described_plainly() {
    assert_eq!(SdStatus::Ready { capacity_mb: 15193 }.summary(), "ready (15193 MB)");
    assert_eq!(SdStatus::NotPresent.summary(), "no card detected");
    assert_eq!(SdStatus::Failed("bad".to_string()).summary(), "unusable: bad");
    assert!(SdStatus::Ready { capacity_mb: 1 }.is_ready());
    assert!(!SdStatus::NotPresent.is_ready());
}

#[test]
fn capacity_is_whole_mebibytes() {
    assert_eq!(capacity_mb(62_333_952, 512), 30436);
    assert_eq!(capacity_mb(2047, 512), 0);
    assert_eq!(capacity_mb(u32::MAX, u32::MAX), (u32::MAX as u64 * u32::MAX as u64) / 1_048_576);
}
