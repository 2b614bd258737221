//! Getting the frame onto a network: first with credentials it was built
//! with, otherwise through its own setup access point and captive portal.
//!
//! The decisions are a state machine; the radio work each decision asks for
//! is done by the caller, which reports back what happened.

use vstd::prelude::*;
use crate::portal::ConnectState;
use crate::state::NetworkPhase;
use crate::text::{hex_digits, owned, push_hex};

verus! {

/// Where provisioning has got to.
#[derive(Debug, PartialEq, Eq)]
pub enum ProvisioningState {
    NotStarted,
    /// Trying the network the firmware was built with.
    TryingConfigured { ssid: String, password: String },
    /// Bringing up the setup access point.
    StartingAp,
    /// The setup access point is up with these credentials.
    Started { ssid: String, password: String },
    /// Leaving the setup access point to try the network the owner chose.
    Switching { ap_ssid: String, ap_password: String, ssid: String, password: String },
    /// Joined this network.
    Finished { ssid: String, password: String },
}

/// What the caller observed.
#[derive(Debug)]
pub enum ProvisioningEvent {
    /// The frame asks again whether it is on a network. Carries the
    /// credentials the firmware was built with, if any, and the portal's
    /// current connect state.
    Tick { configured: Option<(String, String)>, portal: ConnectState },
    /// The requested station connection succeeded.
    StationConnected,
    /// The requested station connection failed.
    StationFailed,
    /// The setup access point is up; these are the credentials it actually
    /// runs with, which the radio may have altered.
    ApStarted { ssid: String, password: String },
}

/// What the caller should do next.
#[derive(Debug, PartialEq, Eq)]
pub enum ProvisioningAction {
    /// Stop here and report this phase.
    Report(NetworkPhase),
    /// Join this network as a station, first stopping the access point when
    /// `stop_ap` is set, then report the outcome.
    ConnectStation { ssid: String, password: String, stop_ap: bool },
    /// Choose a setup network name, start the access point and the portal,
    /// and report the credentials the access point runs with.
    StartAp,
    /// Tell the portal the frame is connected, stop it, and report
    /// `Connected`.
    FinishPortal,
    /// Restart the access point with these credentials, reset the portal, and
    /// report `Provisioning`.
    RestartAp { ssid: String, password: String },
}

/// The phase a state stands for when it is reported.
pub open spec fn phase_of(s: ProvisioningState) -> NetworkPhase {
    match s {
        ProvisioningState::Finished { .. } => NetworkPhase::Connected,
        ProvisioningState::Started { .. } => NetworkPhase::Provisioning,
        ProvisioningState::Switching { .. } => NetworkPhase::Provisioning,
        _ => NetworkPhase::Unprovisioned,
    }
}

/// The phase the caller reports once it has carried out `a`, or `None` when
/// `a` leads to another event.
pub open spec fn reported_phase(a: ProvisioningAction) -> Option<NetworkPhase> {
    match a {
        ProvisioningAction::Report(p) => Some(p),
        ProvisioningAction::FinishPortal => Some(NetworkPhase::Connected),
        ProvisioningAction::RestartAp { .. } => Some(NetworkPhase::Provisioning),
        _ => None,
    }
}

/// The transition relation: the next state and action for a state and event.
pub open spec fn step_spec(
    s: ProvisioningState,
    e: ProvisioningEvent,
    next: ProvisioningState,
    a: ProvisioningAction,
) -> bool {
    match (s, e) {
        (ProvisioningState::NotStarted, ProvisioningEvent::Tick { configured, .. }) => match configured {
            Some((ssid, password)) => next == ProvisioningState::TryingConfigured { ssid, password }
                && a == ProvisioningAction::ConnectStation { ssid, password, stop_ap: false },
            None => next == ProvisioningState::StartingAp && a == ProvisioningAction::StartAp,
        },
        (ProvisioningState::TryingConfigured { ssid, password }, ProvisioningEvent::StationConnected) => {
            next == ProvisioningState::Finished { ssid, password } && a == ProvisioningAction::Report(
                NetworkPhase::Connected,
            )
        },
        (ProvisioningState::TryingConfigured { .. }, ProvisioningEvent::StationFailed) => {
            next == ProvisioningState::StartingAp && a == ProvisioningAction::StartAp
        },
        (ProvisioningState::StartingAp, ProvisioningEvent::ApStarted { ssid, password }) => {
            next == ProvisioningState::Started { ssid, password } && a == ProvisioningAction::Report(
                NetworkPhase::Provisioning,
            )
        },
        (ProvisioningState::Started { ssid: ap_ssid, password: ap_password }, ProvisioningEvent::Tick {
            portal,
            ..
        }) => match portal {
            ConnectState::Connecting(ssid, password) => next == ProvisioningState::Switching {
                ap_ssid,
                ap_password,
                ssid,
                password,
            } && a == ProvisioningAction::ConnectStation { ssid, password, stop_ap: true },
            _ => next == ProvisioningState::Started { ssid: ap_ssid, password: ap_password } && a
                == ProvisioningAction::Report(NetworkPhase::Provisioning),
        },
        (ProvisioningState::Switching { ssid, password, .. }, ProvisioningEvent::StationConnected) => {
            next == ProvisioningState::Finished { ssid, password } && a
                == ProvisioningAction::FinishPortal
        },
        (ProvisioningState::Switching { ap_ssid, ap_password, .. }, ProvisioningEvent::StationFailed) => {
            next == ProvisioningState::Started { ssid: ap_ssid, password: ap_password } && a
                == ProvisioningAction::RestartAp { ssid: ap_ssid, password: ap_password }
        },
        (ProvisioningState::Finished { ssid, password }, ProvisioningEvent::Tick { .. }) => {
            next == ProvisioningState::Finished { ssid, password } && a == ProvisioningAction::Report(
                NetworkPhase::Connected,
            )
        },
        (s, _) => next == s && a == ProvisioningAction::Report(phase_of(s)),
    }
}

/// Decides what to do next. An event that does not fit the state changes
/// nothing and reports the state's phase.
pub fn step(state: ProvisioningState, event: ProvisioningEvent) -> (r: (
    ProvisioningState,
    ProvisioningAction,
))
    ensures
        step_spec(state, event, r.0, r.1),
{
    match (state, event) {
        (ProvisioningState::NotStarted, ProvisioningEvent::Tick { configured, .. }) => match configured {
            Some((ssid, password)) => {
                let a = ProvisioningAction::ConnectStation {
                    ssid: ssid.clone(),
                    password: password.clone(),
                    stop_ap: false,
                };
                (ProvisioningState::TryingConfigured { ssid, password }, a)
            },
            None => (ProvisioningState::StartingAp, ProvisioningAction::StartAp),
        },
        (ProvisioningState::TryingConfigured { ssid, password }, ProvisioningEvent::StationConnected) => {
            (
                ProvisioningState::Finished { ssid, password },
                ProvisioningAction::Report(NetworkPhase::Connected),
            )
        },
        (ProvisioningState::TryingConfigured { .. }, ProvisioningEvent::StationFailed) => {
            (ProvisioningState::StartingAp, ProvisioningAction::StartAp)
        },
        (ProvisioningState::StartingAp, ProvisioningEvent::ApStarted { ssid, password }) => {
            (
                ProvisioningState::Started { ssid, password },
                ProvisioningAction::Report(NetworkPhase::Provisioning),
            )
        },
        (ProvisioningState::Started { ssid: ap_ssid, password: ap_password }, ProvisioningEvent::Tick {
            portal,
            ..
        }) => match portal {
            ConnectState::Connecting(ssid, password) => {
                let a = ProvisioningAction::ConnectStation {
                    ssid: ssid.clone(),
                    password: password.clone(),
                    stop_ap: true,
                };
                (ProvisioningState::Switching { ap_ssid, ap_password, ssid, password }, a)
            },
            _ => (
                ProvisioningState::Started { ssid: ap_ssid, password: ap_password },
                ProvisioningAction::Report(NetworkPhase::Provisioning),
            ),
        },
        (ProvisioningState::Switching { ssid, password, .. }, ProvisioningEvent::StationConnected) => {
            (ProvisioningState::Finished { ssid, password }, ProvisioningAction::FinishPortal)
        },
        (
            ProvisioningState::Switching { ap_ssid, ap_password, .. },
            ProvisioningEvent::StationFailed,
        ) => {
            let a = ProvisioningAction::RestartAp {
                ssid: ap_ssid.clone(),
                password: ap_password.clone(),
            };
            (ProvisioningState::Started { ssid: ap_ssid, password: ap_password }, a)
        },
        (ProvisioningState::Finished { ssid, password }, ProvisioningEvent::Tick { .. }) => {
            (
                ProvisioningState::Finished { ssid, password },
                ProvisioningAction::Report(NetworkPhase::Connected),
            )
        },
        (s, _) => {
            let phase = match &s {
                ProvisioningState::Finished { .. } => NetworkPhase::Connected,
                ProvisioningState::Started { .. } => NetworkPhase::Provisioning,
                ProvisioningState::Switching { .. } => NetworkPhase::Provisioning,
                _ => NetworkPhase::Unprovisioned,
            };
            (s, ProvisioningAction::Report(phase))
        },
    }
}

/// The setup access point's name and password while it is up.
pub fn get_provisioning_ap_details(state: &ProvisioningState) -> (d: Option<(String, String)>)
    ensures
        match *state {
            ProvisioningState::Started { ssid, password } => d == Some((ssid, password)),
            ProvisioningState::Switching { ap_ssid, ap_password, .. } => d == Some(
                (ap_ssid, ap_password),
            ),
            _ => d is None,
        },
{
    match state {
        ProvisioningState::Started { ssid, password } => Some((ssid.clone(), password.clone())),
        ProvisioningState::Switching { ap_ssid, ap_password, .. } => Some(
            (ap_ssid.clone(), ap_password.clone()),
        ),
        _ => None,
    }
}

/// Once joined, the frame stays joined: every later tick reports
/// `Connected` with the same network.
pub proof fn lemma_finished_is_absorbing(
    ssid: String,
    password: String,
    e: ProvisioningEvent,
    next: ProvisioningState,
    a: ProvisioningAction,
)
    requires
        step_spec(ProvisioningState::Finished { ssid, password }, e, next, a),
    ensures
        next == (ProvisioningState::Finished { ssid, password }),
        reported_phase(a) == Some(NetworkPhase::Connected),
{
}

/// A network the owner chose in the portal is what the frame ends up joined
/// to, and a failed attempt returns to the same setup access point.
pub proof fn lemma_portal_choice_is_joined(
    ap_ssid: String,
    ap_password: String,
    configured: Option<(String, String)>,
    ssid: String,
    password: String,
    mid: ProvisioningState,
    a1: ProvisioningAction,
    ok: bool,
    last: ProvisioningState,
    a2: ProvisioningAction,
)
    requires
        step_spec(
            ProvisioningState::Started { ssid: ap_ssid, password: ap_password },
            ProvisioningEvent::Tick { configured, portal: ConnectState::Connecting(ssid, password) },
            mid,
            a1,
        ),
        step_spec(
            mid,
            if ok {
                ProvisioningEvent::StationConnected
            } else {
                ProvisioningEvent::StationFailed
            },
            last,
            a2,
        ),
    ensures
        a1 == (ProvisioningAction::ConnectStation { ssid, password, stop_ap: true }),
        ok ==> last == (ProvisioningState::Finished { ssid, password })
            && reported_phase(a2) == Some(NetworkPhase::Connected),
        !ok ==> last == (ProvisioningState::Started { ssid: ap_ssid, password: ap_password })
            && a2 == (ProvisioningAction::RestartAp { ssid: ap_ssid, password: ap_password })
            && reported_phase(a2) == Some(NetworkPhase::Provisioning),
{
}

/// The setup network's name for a random suffix: `Frame-` and four upper-case
/// hexadecimal digits.
pub open spec fn ap_ssid_name(suffix: u16) -> Seq<char> {
    "Frame-"@ + hex_digits(suffix as nat, 4)
}

/// The setup network's name for the given random suffix.
pub fn ap_ssid_from_suffix(suffix: u16) -> (s: String)
    ensures
        s@ == ap_ssid_name(suffix),
{
    let mut s = owned("Frame-");
    push_hex(&mut s, suffix as u64, 4);
    s
}

/// The setup network runs open: its password is empty.
pub fn generate_ap_password() -> (p: String)
    ensures
        p@ == Seq::<char>::empty(),
{
    String::new()
}

/// Provisioning on a machine with no radio: always already connected.
#[derive(Debug, Default)]
pub struct HostProvisioningManager;

impl HostProvisioningManager {
    pub fn ensure_network(&mut self) -> (p: NetworkPhase)
        ensures
            p == NetworkPhase::Connected,
    {
        NetworkPhase::Connected
    }

    pub fn get_provisioning_ap_details(&self) -> (d: Option<(String, String)>)
        ensures
            d is None,
    {
        None
    }
}

/// The provisioning manager for a machine with no radio.
pub fn create_provisioning_manager() -> (m: HostProvisioningManager) {
    HostProvisioningManager
}

} // verus!
