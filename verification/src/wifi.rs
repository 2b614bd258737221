//! Wi-Fi: the networks the radio reports, how a started access point is
//! judged, and the radio-less stand-ins used on a host machine.

use vstd::prelude::*;
use vstd::string::*;
use vstd::utf8::encode_utf8;
use crate::text::{decimal, owned, push_decimal, push_str, str_eq};

verus! {

/// A network seen by a scan.
#[derive(Clone, Debug, Default, PartialEq, Eq)]
pub struct WifiAp {
    pub ssid: String,
}

#[derive(Clone, Copy, Debug, PartialEq, Eq, Structural)]
pub enum WifiConnectionState {
    Disconnected,
    Connecting,
    Connected,
}

/// Why a radio operation failed.
#[derive(Debug, PartialEq, Eq)]
pub enum WifiError {
    Radio(String),
}

/// An ASCII hexadecimal digit byte.
pub open spec fn is_hex_byte(b: u8) -> bool {
    (48 <= b <= 57) || (65 <= b <= 70) || (97 <= b <= 102)
}

/// The open network the hosted radio falls back to: `ESP_` and six
/// hexadecimal digits, ten bytes in all, with no password and open
/// authentication.
pub open spec fn hosted_open_ap(ssid: Seq<u8>, password_empty: bool, auth_open: bool) -> bool {
    &&& auth_open
    &&& password_empty
    &&& ssid.len() == 10
    &&& ssid.subrange(0, 4) == seq![69u8, 83, 80, 95]
    &&& forall|i: int| 4 <= i < 10 ==> is_hex_byte(#[trigger] ssid[i])
}

/// Whether the radio is running its own fallback open network rather than the
/// one requested.
pub fn is_known_hosted_open_ap(ssid: &str, password: &str, auth_open: bool) -> (r: bool)
    ensures
        r == hosted_open_ap(ssid.spec_bytes(), password@.len() == 0, auth_open),
{
    if !auth_open || !password.is_empty() {
        return false;
    }
    let b = ssid.as_bytes();
    if b.len() != 10 {
        return false;
    }
    if !(b[0] == 69 && b[1] == 83 && b[2] == 80 && b[3] == 95) {
        proof {
            if b@.subrange(0, 4) == seq![69u8, 83, 80, 95] {
                assert(b@[0] == b@.subrange(0, 4)[0]);
                assert(b@[1] == b@.subrange(0, 4)[1]);
                assert(b@[2] == b@.subrange(0, 4)[2]);
                assert(b@[3] == b@.subrange(0, 4)[3]);
            }
        }
        return false;
    }
    assert(b@.subrange(0, 4) =~= seq![69u8, 83, 80, 95]);
    let mut i: usize = 4;
    while i < 10
        invariant
            b@ == ssid.spec_bytes(),
            auth_open,
            password@.len() == 0,
            b@.subrange(0, 4) == seq![69u8, 83, 80, 95],
            b@.len() == 10,
            4 <= i <= 10,
            forall|j: int| 4 <= j < i ==> is_hex_byte(b@[j]),
        decreases 10 - i,
    {
        let c = b[i];
        if !((48 <= c && c <= 57) || (65 <= c && c <= 70) || (97 <= c && c <= 102)) {
            assert(!is_hex_byte(b@[i as int]));
            return false;
        }
        i = i + 1;
    }
    true
}

/// The credentials and authentication an access point is actually running
/// with, as read back from the radio.
#[derive(Clone, Debug, PartialEq, Eq)]
pub struct EffectiveAp {
    pub ssid: String,
    pub password: String,
    pub auth_open: bool,
}

/// How one attempt to start the access point turned out.
#[derive(Clone, Copy, Debug, PartialEq, Eq, Structural)]
pub enum ApVerdict {
    /// Running with exactly the requested credentials.
    Matched,
    /// Running the radio's fallback open network, which is accepted.
    HostedFallback,
    /// Running something else, or unreadable: try again.
    Mismatch,
}

/// The verdict on one attempt: a match needs the same name, the same password
/// and open authentication exactly when the password is empty.
pub open spec fn ap_verdict(ssid: Seq<char>, password: Seq<char>, eff: Option<EffectiveAp>) -> ApVerdict {
    match eff {
        None => ApVerdict::Mismatch,
        Some(e) => if e.ssid@ == ssid && e.password@ == password && (password.len() == 0)
            == e.auth_open {
            ApVerdict::Matched
        } else if hosted_open_ap(encode_utf8(e.ssid@), e.password@.len() == 0, e.auth_open) {
            ApVerdict::HostedFallback
        } else {
            ApVerdict::Mismatch
        },
    }
}

/// Judges an access point read back from the radio.
fn judge_running(ssid: &str, password: &str, e: &EffectiveAp) -> (v: ApVerdict)
    ensures
        v == ap_verdict(ssid@, password@, Some(*e)),
{
    if str_eq(e.ssid.as_str(), ssid) && str_eq(e.password.as_str(), password) && password.is_empty()
        == e.auth_open {
        ApVerdict::Matched
    } else if is_known_hosted_open_ap(e.ssid.as_str(), e.password.as_str(), e.auth_open) {
        ApVerdict::HostedFallback
    } else {
        ApVerdict::Mismatch
    }
}

/// Judges one attempt to start the access point.
pub fn judge_ap_attempt(ssid: &str, password: &str, eff: &Option<EffectiveAp>) -> (v: ApVerdict)
    ensures
        v == ap_verdict(ssid@, password@, *eff),
{
    match eff {
        None => ApVerdict::Mismatch,
        Some(e) => judge_running(ssid, password, e),
    }
}

/// After every attempt has failed: the access point is still accepted when
/// the last one read back was the radio's fallback open network.
pub fn accept_after_retries(last: &Option<EffectiveAp>) -> (ok: bool)
    ensures
        ok == (last matches Some(e) && hosted_open_ap(
            encode_utf8(e.ssid@),
            e.password@.len() == 0,
            e.auth_open,
        )),
{
    match last {
        Some(e) => is_known_hosted_open_ap(e.ssid.as_str(), e.password.as_str(), e.auth_open),
        None => false,
    }
}

/// How many times joining a network is attempted before giving up.
pub const STA_CONNECT_RETRIES: usize = 5;

/// How many times the access point is started before giving up.
pub const AP_START_ATTEMPTS: usize = 5;

/// How one attempt to join a network ended.
#[derive(Debug)]
pub enum StationAttempt {
    /// Associated and got an address.
    Joined,
    /// Refused, or no address came; with the radio's description.
    Failed(String),
}

/// What to do after an attempt to join a network.
#[derive(Debug, PartialEq, Eq)]
pub enum StationNext {
    Connected,
    /// Wait a second and try again.
    Retry,
    /// Stop trying, failing with this message.
    GiveUp(String),
}

/// The attempts to join one network.
#[derive(Debug)]
pub struct StationRetries {
    ssid: String,
    attempts: usize,
}

/// The message after the last attempt to join `ssid` failed with `error`.
pub open spec fn station_failure(ssid: Seq<char>, error: Seq<char>) -> Seq<char> {
    "failed to connect to ssid '"@ + ssid + "' after "@ + decimal(STA_CONNECT_RETRIES as nat)
        + " attempts: "@ + error
}

impl StationRetries {
    pub closed spec fn network(&self) -> Seq<char> {
        self.ssid@
    }

    /// Attempts made so far.
    pub closed spec fn made(&self) -> nat {
        self.attempts as nat
    }

    /// No attempt made yet to join `ssid`.
    pub fn new(ssid: &str) -> (r: Self)
        ensures
            r.network() == ssid@,
            r.made() == 0,
    {
        StationRetries { ssid: owned(ssid), attempts: 0 }
    }

    /// Records how an attempt ended: joined is done; a failure is retried
    /// until `STA_CONNECT_RETRIES` attempts have failed, and the last failure's
    /// description ends up in the message.
    pub fn record(&mut self, outcome: StationAttempt) -> (next: StationNext)
        requires
            old(self).made() < STA_CONNECT_RETRIES,
        ensures
            final(self).network() == old(self).network(),
            final(self).made() == old(self).made() + 1,
            match outcome {
                StationAttempt::Joined => next == StationNext::Connected,
                StationAttempt::Failed(e) => if old(self).made() + 1 < STA_CONNECT_RETRIES {
                    next == StationNext::Retry
                } else {
                    next matches StationNext::GiveUp(m) && m@ == station_failure(
                        old(self).network(),
                        e@,
                    )
                },
            },
    {
        self.attempts = self.attempts + 1;
        match outcome {
            StationAttempt::Joined => StationNext::Connected,
            StationAttempt::Failed(e) => {
                if self.attempts < STA_CONNECT_RETRIES {
                    return StationNext::Retry;
                }
                let mut m = owned("failed to connect to ssid '");
                push_str(&mut m, self.ssid.as_str());
                push_str(&mut m, "' after ");
                push_decimal(&mut m, STA_CONNECT_RETRIES as u64);
                push_str(&mut m, " attempts: ");
                push_str(&mut m, e.as_str());
                StationNext::GiveUp(m)
            },
        }
    }
}

/// What reading back the radio's configuration after starting the access
/// point found.
#[derive(Debug)]
pub enum ApObservation {
    /// The configuration could not be read.
    Unreadable,
    /// The radio is not configured as an access point.
    NotAccessPoint,
    /// The access point is running with these settings.
    Running(EffectiveAp),
}

/// What to do after an attempt to start the access point.
#[derive(Debug, PartialEq, Eq)]
pub enum ApNext {
    /// Running with the requested credentials.
    Started,
    /// Running the radio's fallback open network, which is accepted.
    Fallback,
    /// Wait half a second and try again.
    Retry,
    /// Refuse to continue with unknown security, failing with this message.
    GiveUp(String),
}

/// The attempts to start one access point.
#[derive(Debug)]
pub struct ApStartRetries {
    ssid: String,
    password: String,
    attempts: usize,
    last_observation: String,
    last_effective: Option<EffectiveAp>,
}

/// `true` or `false`.
pub open spec fn bool_text(b: bool) -> Seq<char> {
    if b {
        "true"@
    } else {
        "false"@
    }
}

/// What is remembered of attempt `attempt` that found `e` running instead;
/// the password's length is counted in bytes.
pub open spec fn mismatch_observation(attempt: nat, e: EffectiveAp) -> Seq<char> {
    "attempt "@ + decimal(attempt) + ": active ssid='"@ + e.ssid@ + "', password_len="@ + decimal(
        encode_utf8(e.password@).len(),
    ) + ", protected="@ + bool_text(!e.auth_open)
}

/// What is remembered of attempt `attempt` that could not read the radio.
pub open spec fn unreadable_observation(attempt: nat) -> Seq<char> {
    "attempt "@ + decimal(attempt) + ": unable to read active AP configuration"@
}

/// The message after the last attempt to start the access point failed.
pub open spec fn ap_failure(last_observation: Seq<char>) -> Seq<char> {
    "failed to apply AP credentials after retries; refusing to continue with unknown AP security; "@
        + last_observation
}

fn push_bool(s: &mut String, b: bool)
    ensures
        final(s)@ == old(s)@ + bool_text(b),
{
    if b {
        push_str(s, "true");
    } else {
        push_str(s, "false");
    }
}

impl ApStartRetries {
    pub closed spec fn requested(&self) -> (Seq<char>, Seq<char>) {
        (self.ssid@, self.password@)
    }

    /// Attempts made so far.
    pub closed spec fn made(&self) -> nat {
        self.attempts as nat
    }

    /// What the last informative attempt found.
    pub closed spec fn observation(&self) -> Seq<char> {
        self.last_observation@
    }

    /// The last access point read back that did not match.
    pub closed spec fn last_running(&self) -> Option<EffectiveAp> {
        self.last_effective
    }

    /// No attempt made yet to start an access point with these credentials.
    pub fn new(ssid: &str, password: &str) -> (r: Self)
        ensures
            r.requested() == (ssid@, password@),
            r.made() == 0,
            r.observation() == "no AP configuration observed"@,
            r.last_running() is None,
    {
        ApStartRetries {
            ssid: owned(ssid),
            password: owned(password),
            attempts: 0,
            last_observation: owned("no AP configuration observed"),
            last_effective: None,
        }
    }

    /// Records what an attempt found. A match, or the radio's fallback open
    /// network, ends the attempts. Otherwise the finding is remembered and
    /// the attempt retried, until `AP_START_ATTEMPTS` have been made; then
    /// the fallback network is still accepted if it was the last one seen,
    /// and anything else is refused with the last finding in the message.
    pub fn record(&mut self, observed: ApObservation) -> (next: ApNext)
        requires
            old(self).made() < AP_START_ATTEMPTS,
        ensures
            final(self).requested() == old(self).requested(),
            final(self).made() == old(self).made() + 1,
            ({
                let attempt = old(self).made() + 1;
                let (ssid, password) = old(self).requested();
                let (obs, last) = match observed {
                    ApObservation::Unreadable => (unreadable_observation(attempt), old(self).last_running()),
                    ApObservation::NotAccessPoint => (old(self).observation(), old(self).last_running()),
                    ApObservation::Running(e) => (mismatch_observation(attempt, e), Some(e)),
                };
                if observed matches ApObservation::Running(e) && ap_verdict(ssid, password, Some(e))
                    == ApVerdict::Matched {
                    next == ApNext::Started
                } else if observed matches ApObservation::Running(e) && ap_verdict(
                    ssid,
                    password,
                    Some(e),
                ) == ApVerdict::HostedFallback {
                    next == ApNext::Fallback
                } else {
                    &&& final(self).observation() == obs
                    &&& final(self).last_running() == last
                    &&& if attempt < AP_START_ATTEMPTS {
                        next == ApNext::Retry
                    } else if last matches Some(l) && hosted_open_ap(
                        encode_utf8(l.ssid@),
                        l.password@.len() == 0,
                        l.auth_open,
                    ) {
                        next == ApNext::Fallback
                    } else {
                        next matches ApNext::GiveUp(m) && m@ == ap_failure(obs)
                    }
                }
            }),
    {
        self.attempts = self.attempts + 1;
        let attempt = self.attempts;
        match observed {
            ApObservation::Unreadable => {
                let mut o = owned("attempt ");
                push_decimal(&mut o, attempt as u64);
                push_str(&mut o, ": unable to read active AP configuration");
                self.last_observation = o;
            },
            ApObservation::NotAccessPoint => {},
            ApObservation::Running(e) => {
                match judge_running(self.ssid.as_str(), self.password.as_str(), &e) {
                    ApVerdict::Matched => {
                        return ApNext::Started;
                    },
                    ApVerdict::HostedFallback => {
                        return ApNext::Fallback;
                    },
                    ApVerdict::Mismatch => {},
                }
                let mut o = owned("attempt ");
                push_decimal(&mut o, attempt as u64);
                push_str(&mut o, ": active ssid='");
                push_str(&mut o, e.ssid.as_str());
                push_str(&mut o, "', password_len=");
                let plen: usize = e.password.as_str().as_bytes().len();
                assert(plen == encode_utf8(e.password@).len());
                push_decimal(&mut o, plen as u64);
                push_str(&mut o, ", protected=");
                push_bool(&mut o, !e.auth_open);
                self.last_observation = o;
                self.last_effective = Some(e);
            },
        }
        if attempt < AP_START_ATTEMPTS {
            return ApNext::Retry;
        }
        if accept_after_retries(&self.last_effective) {
            return ApNext::Fallback;
        }
        let mut m = owned(
            "failed to apply AP credentials after retries; refusing to continue with unknown AP security; ",
        );
        push_str(&mut m, self.last_observation.as_str());
        ApNext::GiveUp(m)
    }
}

/// On a host there is no radio: a scan reports three made-up networks.
pub fn scan() -> (r: Result<Vec<WifiAp>, WifiError>)
    ensures
        r matches Ok(v) && v@.len() == 3 && v@[0].ssid@ == "Mock WiFi 1"@ && v@[1].ssid@
            == "Mock WiFi 2"@ && v@[2].ssid@ == "Mock WiFi 3"@,
{
    let mut v: Vec<WifiAp> = Vec::new();
    v.push(WifiAp { ssid: owned("Mock WiFi 1") });
    v.push(WifiAp { ssid: owned("Mock WiFi 2") });
    v.push(WifiAp { ssid: owned("Mock WiFi 3") });
    Ok(v)
}

/// On a host, joining a network always succeeds.
pub fn connect(ssid: &str, password: &str) -> (r: Result<(), WifiError>)
    ensures
        r is Ok,
{
    Ok(())
}

/// On a host, starting an access point always succeeds.
pub fn start_ap(ssid: &str, password: &str) -> (r: Result<(), WifiError>)
    ensures
        r is Ok,
{
    Ok(())
}

/// On a host, stopping the access point always succeeds.
pub fn stop_ap() -> (r: Result<(), WifiError>)
    ensures
        r is Ok,
{
    Ok(())
}

/// On a host there is no access point to read back.
pub fn current_ap_credentials() -> (r: Result<Option<(String, String)>, WifiError>)
    ensures
        r matches Ok(c) && c is None,
{
    Ok(None)
}

/// On a host there is no station address.
pub fn current_sta_ip() -> (r: Result<Option<String>, WifiError>)
    ensures
        r matches Ok(c) && c is None,
{
    Ok(None)
}

} // verus!
