//! The SD card: what mounting it found, and how that is described to Home
//! Assistant.

use vstd::prelude::*;
use crate::text::{decimal, owned, push_decimal, push_signed_decimal, push_str, signed_decimal};

verus! {

/// ESP-IDF's success code.
pub const ESP_OK: i32 = 0;

/// ESP-IDF's "not found" error code.
pub const ESP_ERR_NOT_FOUND: i32 = 0x105;

/// ESP-IDF's timeout error code.
pub const ESP_ERR_TIMEOUT: i32 = 0x107;

/// What happened when the card was brought up.
#[derive(Debug, PartialEq, Eq)]
pub enum SdStatus {
    /// Mounted and usable.
    Ready { capacity_mb: u64 },
    /// No card in the slot, or it did not answer.
    NotPresent,
    /// A card answered but is unusable.
    Failed(String),
}

impl SdStatus {
    pub fn is_ready(&self) -> (r: bool)
        ensures
            r == (*self is Ready),
    {
        match self {
            SdStatus::Ready { .. } => true,
            _ => false,
        }
    }

    /// The plain-language description reported to Home Assistant.
    pub open spec fn description(self) -> Seq<char> {
        match self {
            SdStatus::Ready { capacity_mb } => "ready ("@ + decimal(capacity_mb as nat) + " MB)"@,
            SdStatus::NotPresent => "no card detected"@,
            SdStatus::Failed(reason) => "unusable: "@ + reason@,
        }
    }

    pub fn summary(&self) -> (s: String)
        ensures
            s@ == self.description(),
    {
        match self {
            SdStatus::Ready { capacity_mb } => {
                let mut s = owned("ready (");
                push_decimal(&mut s, *capacity_mb);
                push_str(&mut s, " MB)");
                s
            },
            SdStatus::NotPresent => owned("no card detected"),
            SdStatus::Failed(reason) => {
                let mut s = owned("unusable: ");
                push_str(&mut s, reason.as_str());
                s
            },
        }
    }
}

/// The card's size in whole mebibytes, from its sector count and size.
pub fn capacity_mb(sectors: u32, sector_size: u32) -> (mb: u64)
    ensures
        mb == (sectors as int * sector_size as int) / 1048576int,
{
    assert(sectors as int * sector_size as int <= 0xffff_ffff * 0xffff_ffff) by (nonlinear_arith)
        requires
            sectors <= 0xffff_ffff,
            sector_size <= 0xffff_ffff,
    ;
    (sectors as u64) * (sector_size as u64) / (1024 * 1024)
}

/// The reason given for a card that answered but would not mount.
pub open spec fn mount_failure(result: i32) -> Seq<char> {
    "mount failed (esp_err "@ + signed_decimal(result as int) + ")"@
}

/// The status for the card-mount result code: ready (with the given capacity)
/// on success, not present on a timeout or "not found", and otherwise failed,
/// naming the code.
pub fn mount_status(result: i32, capacity_mb: u64) -> (s: SdStatus)
    ensures
        result == ESP_OK ==> s == (SdStatus::Ready { capacity_mb }),
        (result == ESP_ERR_TIMEOUT || result == ESP_ERR_NOT_FOUND) ==> s == SdStatus::NotPresent,
        result != ESP_OK && result != ESP_ERR_TIMEOUT && result != ESP_ERR_NOT_FOUND ==> (
        s matches SdStatus::Failed(reason) && reason@ == mount_failure(result)),
{
    if result == ESP_OK {
        return SdStatus::Ready { capacity_mb };
    }
    if result == ESP_ERR_TIMEOUT || result == ESP_ERR_NOT_FOUND {
        return SdStatus::NotPresent;
    }
    let mut reason = owned("mount failed (esp_err ");
    push_signed_decimal(&mut reason, result as i64);
    push_str(&mut reason, ")");
    SdStatus::Failed(reason)
}

} // verus!
