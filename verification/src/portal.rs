//! The captive setup portal: which requests it answers, how it reads the
//! network chosen on the setup page, and what the frame learns from it.

use vstd::prelude::*;
use crate::control::{trim, trimmed};
use crate::form::{FormFields, field_value, parse_form_encoded};
use crate::text::{owned, str_eq};

verus! {

/// How far the portal has got with the owner's Wi-Fi choice.
#[derive(Clone, Debug, PartialEq, Eq)]
pub enum ConnectState {
    NotConnected,
    /// The owner chose this network and password; the frame should try them.
    Connecting(String, String),
    Connected,
}

/// A network the frame can see.
#[derive(Clone, Debug, PartialEq, Eq)]
pub struct WifiNetwork {
    pub ssid: String,
}

/// The portal's memory between requests.
#[derive(Debug)]
pub struct PortalState {
    pub connect_state: ConnectState,
}

/// A portal that has not been given a network yet.
pub fn create_captive_portal() -> (p: PortalState)
    ensures
        p.connect_state == ConnectState::NotConnected,
{
    PortalState { connect_state: ConnectState::NotConnected }
}

impl PortalState {
    pub fn mark_connected(&mut self)
        ensures
            final(self).connect_state == ConnectState::Connected,
    {
        self.connect_state = ConnectState::Connected;
    }

    pub fn reset_connect_state(&mut self)
        ensures
            final(self).connect_state == ConnectState::NotConnected,
    {
        self.connect_state = ConnectState::NotConnected;
    }

    /// A copy of the current connect state.
    pub fn get_connect_state(&self) -> (c: ConnectState)
        ensures
            c == self.connect_state,
    {
        match &self.connect_state {
            ConnectState::NotConnected => ConnectState::NotConnected,
            ConnectState::Connecting(ssid, password) => ConnectState::Connecting(
                ssid.clone(),
                password.clone(),
            ),
            ConnectState::Connected => ConnectState::Connected,
        }
    }
}

/// The requests the portal answers.
#[derive(Clone, Copy, Debug, PartialEq, Eq, Structural)]
pub enum PortalRoute {
    /// The setup page itself.
    Index,
    /// An operating system's connectivity probe, sent to the setup page.
    Redirect,
    /// The list of visible networks, as JSON.
    WifiScan,
    /// The owner's chosen network, posted as a form.
    Connect,
}

/// The paths operating systems probe to detect a captive portal.
pub open spec fn is_probe_path(p: Seq<char>) -> bool {
    ||| p == "/generate_204"@
    ||| p == "/gen_204"@
    ||| p == "/hotspot-detect.html"@
    ||| p == "/library/test/success.html"@
    ||| p == "/success.txt"@
    ||| p == "/ncsi.txt"@
    ||| p == "/connecttest.txt"@
    ||| p == "/redirect"@
    ||| p == "/fwlink"@
    ||| p == "/canonical.html"@
}

/// Which handler answers a request; `None` for anything else.
pub open spec fn route_of(is_post: bool, path: Seq<char>) -> Option<PortalRoute> {
    if is_post {
        if path == "/connect"@ { Some(PortalRoute::Connect) } else { None }
    } else if path == "/"@ || path == "/index.html"@ {
        Some(PortalRoute::Index)
    } else if is_probe_path(path) {
        Some(PortalRoute::Redirect)
    } else if path == "/wifi-scan"@ {
        Some(PortalRoute::WifiScan)
    } else {
        None
    }
}

/// Every connectivity probe an operating system sends on joining the setup
/// network, fetched with `GET`, is redirected to the setup page; so are no
/// other `GET`s but these, and the setup page and scan keep their own routes.
pub proof fn lemma_probes_are_redirected(path: Seq<char>)
    ensures
        (path == "/generate_204"@ || path == "/gen_204"@ || path == "/hotspot-detect.html"@ || path == "/library/test/success.html"@ || path == "/success.txt"@ || path == "/ncsi.txt"@ || path == "/connecttest.txt"@ || path == "/redirect"@ || path == "/fwlink"@ || path == "/canonical.html"@) ==> route_of(false, path) == Some(PortalRoute::Redirect),
        route_of(false, "/"@) == Some(PortalRoute::Index),
        route_of(false, "/index.html"@) == Some(PortalRoute::Index),
        route_of(false, "/wifi-scan"@) == Some(PortalRoute::WifiScan),
        route_of(true, "/connect"@) == Some(PortalRoute::Connect),
        route_of(false, "/connect"@) is None,
{
    reveal_strlit("/generate_204");
    assert("/generate_204"@.len() == 13);
    reveal_strlit("/gen_204");
    assert("/gen_204"@.len() == 8);
    reveal_strlit("/hotspot-detect.html");
    assert("/hotspot-detect.html"@.len() == 20);
    reveal_strlit("/library/test/success.html");
    assert("/library/test/success.html"@.len() == 26);
    reveal_strlit("/success.txt");
    assert("/success.txt"@.len() == 12);
    reveal_strlit("/ncsi.txt");
    assert("/ncsi.txt"@.len() == 9);
    reveal_strlit("/connecttest.txt");
    assert("/connecttest.txt"@.len() == 16);
    reveal_strlit("/redirect");
    assert("/redirect"@.len() == 9);
    reveal_strlit("/fwlink");
    assert("/fwlink"@.len() == 7);
    reveal_strlit("/canonical.html");
    assert("/canonical.html"@.len() == 15);
    reveal_strlit("/");
    assert("/"@.len() == 1);
    reveal_strlit("/index.html");
    assert("/index.html"@.len() == 11);
    reveal_strlit("/wifi-scan");
    assert("/wifi-scan"@.len() == 10);
    reveal_strlit("/connect");
    assert("/connect"@.len() == 8);
    assert("/connect"@[1] != "/gen_204"@[1]);
}

/// The handler for a `GET` (or, when `is_post`, a `POST`) of `path`.
pub fn route(is_post: bool, path: &str) -> (r: Option<PortalRoute>)
    ensures
        r == route_of(is_post, path@),
        !is_post && (path@ == "/generate_204"@ || path@ == "/gen_204"@ || path@ == "/hotspot-detect.html"@ || path@ == "/library/test/success.html"@ || path@ == "/success.txt"@ || path@ == "/ncsi.txt"@ || path@ == "/connecttest.txt"@ || path@ == "/redirect"@ || path@ == "/fwlink"@ || path@ == "/canonical.html"@) ==> r == Some(PortalRoute::Redirect),
{
    proof {
        lemma_probes_are_redirected(path@);
    }
    if is_post {
        return if str_eq(path, "/connect") { Some(PortalRoute::Connect) } else { None };
    }
    if str_eq(path, "/") || str_eq(path, "/index.html") {
        return Some(PortalRoute::Index);
    }
    if str_eq(path, "/generate_204") || str_eq(path, "/gen_204") || str_eq(
        path,
        "/hotspot-detect.html",
    ) || str_eq(path, "/library/test/success.html") || str_eq(path, "/success.txt") || str_eq(
        path,
        "/ncsi.txt",
    ) || str_eq(path, "/connecttest.txt") || str_eq(path, "/redirect") || str_eq(path, "/fwlink")
        || str_eq(path, "/canonical.html") {
        return Some(PortalRoute::Redirect);
    }
    if str_eq(path, "/wifi-scan") {
        return Some(PortalRoute::WifiScan);
    }
    None
}

/// A form field's value trimmed, if it is there and not blank.
pub open spec fn nonblank_field(pairs: Seq<(Seq<char>, Seq<char>)>, key: Seq<char>) -> Option<
    Seq<char>,
> {
    match field_value(pairs, key) {
        Some(v) => if trimmed(v).len() > 0 { Some(trimmed(v)) } else { None },
        None => None,
    }
}

/// The network the owner chose: the typed-in name when there is one,
/// otherwise the one picked from the list, otherwise nothing.
pub open spec fn chosen_ssid(pairs: Seq<(Seq<char>, Seq<char>)>) -> Seq<char> {
    match nonblank_field(pairs, "manual_ssid"@) {
        Some(s) => s,
        None => match nonblank_field(pairs, "ssid"@) {
            Some(s) => s,
            None => Seq::empty(),
        },
    }
}

/// The password as typed, untrimmed; empty when absent.
pub open spec fn chosen_password(pairs: Seq<(Seq<char>, Seq<char>)>) -> Seq<char> {
    match field_value(pairs, "password"@) {
        Some(p) => p,
        None => Seq::empty(),
    }
}

fn nonblank(fields: &FormFields, key: &str) -> (v: Option<String>)
    ensures
        match nonblank_field(fields.view_pairs(), key@) {
            None => v is None,
            Some(s) => v matches Some(t) && t@ == s,
        },
{
    match fields.get(key) {
        Some(value) => {
            let t = owned(trim(value.as_str()));
            if t.as_str().is_empty() {
                None
            } else {
                Some(t)
            }
        },
        None => None,
    }
}

/// What the setup page is told after posting a network.
#[derive(Debug, PartialEq, Eq)]
pub enum ConnectReply {
    /// No network name was given; answered with 400 and this message.
    MissingSsid,
    /// The frame is switching networks; answered with the "joining" page.
    Joining,
}

/// The text of the 400 answer to a form without a network name.
pub open spec fn missing_ssid_message() -> Seq<char> {
    "Missing Wi-Fi network name. Enter the SSID manually or choose one from scan results."@
}

pub fn missing_ssid_text() -> (s: &'static str)
    ensures
        s@ == missing_ssid_message(),
{
    "Missing Wi-Fi network name. Enter the SSID manually or choose one from scan results."
}

/// Reads a posted setup form. Without a network name nothing changes and the
/// owner is asked for one; otherwise the portal records the network and
/// password for the frame to try.
pub fn handle_connect_form(state: &mut PortalState, form: &str) -> (reply: ConnectReply)
    ensures
        ({
            let pairs = form_pairs_of(form);
            if chosen_ssid(pairs).len() == 0 {
                &&& reply == ConnectReply::MissingSsid
                &&& final(state).connect_state == old(state).connect_state
            } else {
                &&& reply == ConnectReply::Joining
                &&& final(state).connect_state matches ConnectState::Connecting(s, p)
                &&& s@ == chosen_ssid(pairs)
                &&& p@ == chosen_password(pairs)
            }
        }),
{
    let fields = parse_form_encoded(form);
    let ssid = match nonblank(&fields, "manual_ssid") {
        Some(s) => s,
        None => match nonblank(&fields, "ssid") {
            Some(s) => s,
            None => String::new(),
        },
    };
    let password = match fields.get("password") {
        Some(p) => owned(p.as_str()),
        None => String::new(),
    };
    if ssid.as_str().is_empty() {
        return ConnectReply::MissingSsid;
    }
    state.connect_state = ConnectState::Connecting(ssid, password);
    ConnectReply::Joining
}

/// The decoded fields of a form body.
pub open spec fn form_pairs_of(form: &str) -> Seq<(Seq<char>, Seq<char>)> {
    crate::form::form_pairs(vstd::string::StringSliceAdditionalSpecFns::spec_bytes(form))
}

/// The answer to a network scan request.
#[derive(Debug)]
pub struct WifiScanResponse {
    pub networks: Vec<WifiNetwork>,
    pub error: Option<String>,
}

/// What the owner is told when the radio cannot scan during setup.
pub open spec fn scan_unavailable_message() -> Seq<char> {
    "Wi-Fi scan is unavailable while setup mode is active on this firmware. Enter your network name manually."@
}

/// What the owner is told before a scanner has been installed.
pub open spec fn scan_unconfigured_message() -> Seq<char> {
    "Wi-Fi scan handler is not configured yet."@
}

/// The scan answer: the networks found; or, when the scan failed or there is
/// no scanner, no networks and an explanation.
pub fn scan_response(scan: Option<Result<Vec<WifiNetwork>, ()>>) -> (r: WifiScanResponse)
    ensures
        match scan {
            Some(Ok(networks)) => r.networks@ == networks@ && r.error is None,
            Some(Err(_)) => r.networks@.len() == 0 && (r.error matches Some(e) && e@
                == scan_unavailable_message()),
            None => r.networks@.len() == 0 && (r.error matches Some(e) && e@
                == scan_unconfigured_message()),
        },
{
    match scan {
        Some(Ok(networks)) => WifiScanResponse { networks, error: None },
        Some(Err(())) => WifiScanResponse {
            networks: Vec::new(),
            error: Some(
                owned(
                    "Wi-Fi scan is unavailable while setup mode is active on this firmware. Enter your network name manually.",
                ),
            ),
        },
        None => WifiScanResponse {
            networks: Vec::new(),
            error: Some(owned("Wi-Fi scan handler is not configured yet.")),
        },
    }
}

} // verus!
