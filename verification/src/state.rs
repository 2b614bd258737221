//! The frame's application state and the transitions between its phases.

use vstd::prelude::*;
use crate::control::ScreenStatus;

verus! {

/// Where the frame is in its own life cycle.
#[derive(Clone, Copy, Debug, PartialEq, Eq, Structural)]
pub enum AppPhase {
    Splash,
    Setup,
    Ready,
}

impl AppPhase {
    /// The phase's name as shown to people and written to logs.
    pub fn as_str(&self) -> (s: &'static str)
        ensures
            s@ == self.name(),
    {
        match self {
            AppPhase::Splash => "Splash",
            AppPhase::Setup => "Setup",
            AppPhase::Ready => "Ready",
        }
    }

    pub open spec fn name(self) -> Seq<char> {
        match self {
            AppPhase::Splash => "Splash"@,
            AppPhase::Setup => "Setup"@,
            AppPhase::Ready => "Ready"@,
        }
    }
}

/// How far the frame has got with joining a network.
#[derive(Clone, Copy, Debug, PartialEq, Eq, Structural)]
pub enum NetworkPhase {
    Unprovisioned,
    Provisioning,
    Connected,
}

impl NetworkPhase {
    /// The phase's name as shown to people and written to logs.
    pub fn as_str(&self) -> (s: &'static str)
        ensures
            s@ == self.name(),
    {
        match self {
            NetworkPhase::Unprovisioned => "Unprovisioned",
            NetworkPhase::Provisioning => "Provisioning",
            NetworkPhase::Connected => "Connected",
        }
    }

    pub open spec fn name(self) -> Seq<char> {
        match self {
            NetworkPhase::Unprovisioned => "Unprovisioned"@,
            NetworkPhase::Provisioning => "Provisioning"@,
            NetworkPhase::Connected => "Connected"@,
        }
    }
}

/// The state of the connection to the Home Assistant controller.
#[derive(Clone, Debug, PartialEq, Eq)]
pub enum ControllerPhase {
    NotStarted,
    Searching,
    AwaitingConfiguration,
    Connected,
    Error(String),
}

impl ControllerPhase {
    /// The phase's name as shown to people and written to logs; an error's
    /// text is not part of it.
    pub fn as_str(&self) -> (s: &'static str)
        ensures
            s@ == self.name(),
    {
        match self {
            ControllerPhase::NotStarted => "NotStarted",
            ControllerPhase::Searching => "Searching",
            ControllerPhase::AwaitingConfiguration => "AwaitingConfiguration",
            ControllerPhase::Connected => "Connected",
            ControllerPhase::Error(_) => "Error",
        }
    }

    pub open spec fn name(self) -> Seq<char> {
        match self {
            ControllerPhase::NotStarted => "NotStarted"@,
            ControllerPhase::Searching => "Searching"@,
            ControllerPhase::AwaitingConfiguration => "AwaitingConfiguration"@,
            ControllerPhase::Connected => "Connected"@,
            ControllerPhase::Error(_) => "Error"@,
        }
    }
}

/// Everything the frame currently believes about itself.
#[derive(Clone, Debug, PartialEq, Eq)]
pub struct AppState {
    pub phase: AppPhase,
    pub network_phase: NetworkPhase,
    pub controller_phase: ControllerPhase,
    pub active_media_url: Option<String>,
    pub screen_status: ScreenStatus,
    pub display_brightness: Option<u8>,
    pub provisioning_ssid: Option<String>,
    pub provisioning_password: Option<String>,
    pub device_id: Option<String>,
    pub device_name: Option<String>,
}

/// The state of a frame that has just booted.
pub open spec fn initial_state() -> AppState {
    AppState {
        phase: AppPhase::Splash,
        network_phase: NetworkPhase::Unprovisioned,
        controller_phase: ControllerPhase::NotStarted,
        active_media_url: None,
        screen_status: ScreenStatus::Idle,
        display_brightness: None,
        provisioning_ssid: None,
        provisioning_password: None,
        device_id: None,
        device_name: None,
    }
}

/// The state after the network phase becomes `phase`: leaving provisioning
/// forgets the temporary network's credentials, and a frame that is not
/// connected cannot be talking to its controller.
pub open spec fn with_network_phase(s: AppState, phase: NetworkPhase) -> AppState {
    AppState {
        network_phase: phase,
        provisioning_ssid: if phase == NetworkPhase::Provisioning { s.provisioning_ssid } else { None },
        provisioning_password: if phase == NetworkPhase::Provisioning {
            s.provisioning_password
        } else {
            None
        },
        controller_phase: if phase == NetworkPhase::Connected {
            s.controller_phase
        } else {
            ControllerPhase::NotStarted
        },
        ..s
    }
}

impl AppState {
    /// A freshly booted frame: on the splash screen, with no network, no
    /// controller, nothing on screen and no identity yet.
    pub fn new() -> (s: Self)
        ensures
            s == initial_state(),
    {
        AppState {
            phase: AppPhase::Splash,
            network_phase: NetworkPhase::Unprovisioned,
            controller_phase: ControllerPhase::NotStarted,
            active_media_url: None,
            screen_status: ScreenStatus::Idle,
            display_brightness: None,
            provisioning_ssid: None,
            provisioning_password: None,
            device_id: None,
            device_name: None,
        }
    }

    pub fn begin_setup(&mut self)
        ensures
            *final(self) == (AppState { phase: AppPhase::Setup, ..*old(self) }),
    {
        self.phase = AppPhase::Setup;
    }

    pub fn mark_ready(&mut self)
        ensures
            *final(self) == (AppState { phase: AppPhase::Ready, ..*old(self) }),
    {
        self.phase = AppPhase::Ready;
    }

    /// Moves to a new network phase. Anything other than provisioning clears
    /// the provisioning credentials, and anything other than connected resets
    /// the controller phase to not started.
    pub fn set_network_phase(&mut self, phase: NetworkPhase)
        ensures
            *final(self) == with_network_phase(*old(self), phase),
    {
        if phase != NetworkPhase::Provisioning {
            self.clear_provisioning_details();
        }
        self.network_phase = phase;
        if self.network_phase != NetworkPhase::Connected {
            self.controller_phase = ControllerPhase::NotStarted;
        }
    }

    pub fn set_controller_phase(&mut self, phase: ControllerPhase)
        ensures
            *final(self) == (AppState { controller_phase: phase, ..*old(self) }),
    {
        self.controller_phase = phase;
    }

    /// Records a controller failure with its description.
    pub fn set_controller_error(&mut self, error: String)
        ensures
            *final(self) == (AppState { controller_phase: ControllerPhase::Error(error), ..*old(self) }),
    {
        self.controller_phase = ControllerPhase::Error(error);
    }

    pub fn set_active_media_url(&mut self, media_url: String)
        ensures
            *final(self) == (AppState { active_media_url: Some(media_url), ..*old(self) }),
    {
        self.active_media_url = Some(media_url);
    }

    pub fn clear_active_media_url(&mut self)
        ensures
            *final(self) == (AppState { active_media_url: None, ..*old(self) }),
    {
        self.active_media_url = None;
    }

    pub fn set_screen_status(&mut self, screen_status: ScreenStatus)
        ensures
            *final(self) == (AppState { screen_status: screen_status, ..*old(self) }),
    {
        self.screen_status = screen_status;
    }

    pub fn set_display_brightness(&mut self, brightness: Option<u8>)
        ensures
            *final(self) == (AppState { display_brightness: brightness, ..*old(self) }),
    {
        self.display_brightness = brightness;
    }

    pub fn set_provisioning_details(&mut self, ssid: String, password: String)
        ensures
            *final(self) == (AppState {
                provisioning_ssid: Some(ssid),
                provisioning_password: Some(password),
                ..*old(self)
            }),
    {
        self.provisioning_ssid = Some(ssid);
        self.provisioning_password = Some(password);
    }

    pub fn clear_provisioning_details(&mut self)
        ensures
            *final(self) == (AppState {
                provisioning_ssid: None,
                provisioning_password: None,
                ..*old(self)
            }),
    {
        self.provisioning_ssid = None;
        self.provisioning_password = None;
    }

    pub fn set_device_identity(&mut self, device_id: String, device_name: String)
        ensures
            *final(self) == (AppState {
                device_id: Some(device_id),
                device_name: Some(device_name),
                ..*old(self)
            }),
    {
        self.device_id = Some(device_id);
        self.device_name = Some(device_name);
    }
}

impl Default for AppState {
    fn default() -> (s: Self)
        ensures
            s == initial_state(),
    {
        AppState::new()
    }
}

} // verus!
