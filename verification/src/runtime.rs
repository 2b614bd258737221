//! The thin-client runtime's decisions: reconnect backoff, the control-plane
//! connection loop, the render loop, and what the frame records about the
//! photo it is showing.

use vstd::prelude::*;
use crate::control::{
    CommandRequest, ControlEvent, ControllerRegistration, DeviceCommand, OutboundStatusMessage,
    RenderRequest, ScreenStatus,
};
use crate::state::{AppState, ControllerPhase};
use crate::text::{owned, push_str};
use vstd::arithmetic::power2::{lemma2_to64, lemma_pow2_unfold, pow2};

verus! {

/// Delays between reconnection attempts, in milliseconds: the first is the
/// initial delay, each later one double the last, never beyond the maximum.
#[derive(Debug)]
pub struct ExponentialBackoff {
    initial_delay_ms: u64,
    max_delay_ms: u64,
    current_delay_ms: u64,
}

impl ExponentialBackoff {
    #[verifier::type_invariant]
    closed spec fn bounded(&self) -> bool {
        self.initial_delay_ms <= self.current_delay_ms <= self.max_delay_ms
    }

    pub closed spec fn initial(&self) -> u64 {
        self.initial_delay_ms
    }

    pub closed spec fn maximum(&self) -> u64 {
        self.max_delay_ms
    }

    /// The delay the next call to `next_delay` returns.
    pub closed spec fn current(&self) -> u64 {
        self.current_delay_ms
    }

    /// A backoff starting at `initial_delay_ms` and capped at `max_delay_ms`.
    pub fn new(initial_delay_ms: u64, max_delay_ms: u64) -> (b: Self)
        requires
            initial_delay_ms <= max_delay_ms,
        ensures
            b.initial() == initial_delay_ms,
            b.maximum() == max_delay_ms,
            b.current() == initial_delay_ms,
    {
        ExponentialBackoff {
            initial_delay_ms,
            max_delay_ms,
            current_delay_ms: initial_delay_ms,
        }
    }

    /// The delay to wait now; the next one is twice as long, up to the
    /// maximum.
    pub fn next_delay(&mut self) -> (d: u64)
        ensures
            d == old(self).current(),
            final(self).initial() == old(self).initial(),
            final(self).maximum() == old(self).maximum(),
            final(self).current() == next_current(old(self).current() as int, old(self).maximum() as int),
            old(self).initial() <= d <= old(self).maximum(),
    {
        proof {
            use_type_invariant(&*self);
        }
        let delay = self.current_delay_ms;
        self.current_delay_ms = if self.current_delay_ms <= self.max_delay_ms - self.current_delay_ms {
            2 * self.current_delay_ms
        } else {
            self.max_delay_ms
        };
        delay
    }

    /// Starts again from the initial delay.
    pub fn reset(&mut self)
        ensures
            final(self).initial() == old(self).initial(),
            final(self).maximum() == old(self).maximum(),
            final(self).current() == old(self).initial(),
    {
        proof {
            use_type_invariant(&*self);
        }
        self.current_delay_ms = self.initial_delay_ms;
    }
}

/// The delay that follows `current` under the maximum `max`: twice as long,
/// or the maximum when twice would pass it.
pub open spec fn next_current(current: int, max: int) -> int {
    if 2 * current <= max {
        2 * current
    } else {
        max
    }
}

/// The delay the `k`-th call of `next_delay` returns (counting from one) on a
/// backoff made with `initial` and `max`, with no reset in between.
pub open spec fn kth_delay(initial: int, max: int, k: nat) -> int
    decreases k,
{
    if k <= 1 {
        initial
    } else {
        next_current(kth_delay(initial, max, (k - 1) as nat), max)
    }
}

/// Over successive calls the delays are `initial * 2^(k-1)` until that would
/// pass the maximum, and the maximum from then on; so they never shrink.
pub proof fn lemma_backoff_closed_form(initial: u64, max: u64, k: nat)
    requires
        initial <= max,
        k >= 1,
    ensures
        kth_delay(initial as int, max as int, k) == if initial * pow2((k - 1) as nat) <= max {
            initial * pow2((k - 1) as nat)
        } else {
            max as int
        },
        kth_delay(initial as int, max as int, k) <= kth_delay(initial as int, max as int, k + 1)
            <= max,
    decreases k,
{
    if k == 1 {
        lemma2_to64();
        assert(initial * pow2(0) == initial) by (nonlinear_arith)
            requires
                pow2(0) == 1,
        ;
    } else {
        lemma_backoff_closed_form(initial, max, (k - 1) as nat);
        lemma_pow2_unfold((k - 1) as nat);
        let p = pow2((k - 2) as nat);
        assert(initial * pow2((k - 1) as nat) == 2 * (initial * p)) by (nonlinear_arith)
            requires
                pow2((k - 1) as nat) == 2 * p,
        ;
        assert(initial * p >= 0) by (nonlinear_arith)
            requires
                p >= 0,
        ;
    }
}

/// Successive delays never shrink and never pass the maximum.
pub proof fn lemma_backoff_monotone(b1: ExponentialBackoff, d: u64, b2: ExponentialBackoff)
    requires
        b1.initial() <= b1.current() <= b1.maximum(),
        d == b1.current(),
        b2.maximum() == b1.maximum(),
        b2.current() == if 2 * b1.current() <= b1.maximum() {
            2 * b1.current()
        } else {
            b1.maximum() as int
        },
    ensures
        d <= b2.current() <= b2.maximum(),
{
}

/// Records that a photo was asked for: its address, its brightness, and that
/// the screen is rendering.
pub fn record_render_request(app_state: &mut AppState, request: &RenderRequest)
    ensures
        final(app_state).active_media_url matches Some(u) && u@ == request.media_url@,
        final(app_state).display_brightness == request.presentation.brightness,
        final(app_state).screen_status == ScreenStatus::Rendering,
        final(app_state).phase == old(app_state).phase,
        final(app_state).network_phase == old(app_state).network_phase,
        final(app_state).controller_phase == old(app_state).controller_phase,
        final(app_state).provisioning_ssid == old(app_state).provisioning_ssid,
        final(app_state).provisioning_password == old(app_state).provisioning_password,
        final(app_state).device_id == old(app_state).device_id,
        final(app_state).device_name == old(app_state).device_name,
{
    app_state.set_active_media_url(request.media_url.clone());
    app_state.set_display_brightness(request.presentation.brightness);
    app_state.set_screen_status(ScreenStatus::Rendering);
}

/// Records that the photo is on screen.
pub fn record_render_complete(app_state: &mut AppState)
    ensures
        *final(app_state) == (AppState { screen_status: ScreenStatus::Idle, ..*old(app_state) }),
{
    app_state.set_screen_status(ScreenStatus::Idle);
}

/// Records that showing the photo failed.
pub fn record_render_error(app_state: &mut AppState)
    ensures
        *final(app_state) == (AppState { screen_status: ScreenStatus::Error, ..*old(app_state) }),
{
    app_state.set_screen_status(ScreenStatus::Error);
}

/// Whether the owner's own photos on the card are running the slideshow, in
/// which case photos from Home Assistant are acknowledged and not shown.
#[derive(Debug)]
pub struct PhotoSource {
    local_photos_active: bool,
}

impl PhotoSource {
    pub closed spec fn local(&self) -> bool {
        self.local_photos_active
    }

    /// Photos from Home Assistant are shown.
    pub fn new() -> (s: Self)
        ensures
            !s.local(),
    {
        PhotoSource { local_photos_active: false }
    }
}

pub fn set_local_photos_active(source: &mut PhotoSource, active: bool)
    ensures
        final(source).local() == active,
{
    source.local_photos_active = active;
}

pub fn local_photos_active(source: &PhotoSource) -> (active: bool)
    ensures
        active == source.local(),
{
    source.local_photos_active
}

/// What to do with a photo Home Assistant sends.
#[derive(Clone, Copy, Debug, PartialEq, Eq, Structural)]
pub enum MediaPlan {
    /// The card's own photos are showing: acknowledge the photo without
    /// fetching it, so it is reported as rendered rather than failed.
    Acknowledge,
    /// Download, decode and queue it.
    Fetch,
}

/// While the owner's card photos run the slideshow, photos from Home
/// Assistant are acknowledged and not shown; otherwise they are fetched.
pub fn media_plan(source: &PhotoSource) -> (p: MediaPlan)
    ensures
        source.local() ==> p == MediaPlan::Acknowledge,
        !source.local() ==> p == MediaPlan::Fetch,
{
    if source.local_photos_active {
        MediaPlan::Acknowledge
    } else {
        MediaPlan::Fetch
    }
}

/// A request to the control-plane thread.
#[derive(Debug)]
pub enum TransportCommand {
    SendStatus(OutboundStatusMessage),
    Shutdown,
}

/// The control plane's connection, as a WebSocket endpoint address.
#[derive(Debug)]
pub struct WebSocketControlPlaneTransport {
    pub endpoint: String,
}

impl WebSocketControlPlaneTransport {
    pub fn new(endpoint: String) -> (t: Self)
        ensures
            t.endpoint == endpoint,
    {
        WebSocketControlPlaneTransport { endpoint }
    }
}

/// Where the control-plane loop is waiting.
#[derive(Debug)]
pub enum PlaneStage {
    /// Waiting for a connection attempt.
    Connecting,
    /// Connected; waiting to learn whether a command is queued.
    CheckingCommands,
    /// Connected; waiting for a status message to be sent.
    Sending,
    /// Connected; waiting for a message from the controller.
    Reading,
    /// Connected; waiting for an event to be handed to the render loop.
    Forwarding,
    /// Disconnected; waiting out a backoff delay.
    Waiting,
    /// Finished for good.
    Stopped,
}

/// What the caller observed for the stage it was in.
#[derive(Debug)]
pub enum PlaneEvent {
    Connected,
    ConnectFailed,
    /// The next queued command, `None` when the queue is empty.
    Command(Option<TransportCommand>),
    /// Everyone who could queue a command has gone.
    CommandQueueClosed,
    Sent,
    SendFailed,
    /// A message arrived and was validated, or refused.
    Message(Result<ControlEvent, crate::control::ControlMessageError>),
    /// No message arrived before the poll interval ran out.
    NoMessage,
    ReadFailed,
    Forwarded,
    /// The render loop has gone.
    ForwardFailed,
    /// The backoff wait ended; `shutdown` when it ended because of a shutdown
    /// request or because the command queue closed.
    WaitEnded { shutdown: bool },
}

/// What the caller should do next.
#[derive(Debug)]
pub enum PlaneAction {
    Connect,
    /// Take the next command off the queue without blocking.
    CheckCommands,
    Send(OutboundStatusMessage),
    /// Wait up to the poll interval for a message from the controller.
    Read,
    Forward(ControlEvent),
    /// Wait this many milliseconds, or until a command arrives.
    Wait(u64),
    Stop,
}

/// The control-plane loop: its stage and its reconnection backoff.
#[derive(Debug)]
pub struct ControlPlane {
    pub stage: PlaneStage,
    pub backoff: ExponentialBackoff,
}

/// What one step tells the caller: the controller phase to publish, if any,
/// and the next action.
#[derive(Debug)]
pub struct PlaneStep {
    pub phase: Option<ControllerPhase>,
    pub action: PlaneAction,
}

/// Reconnection starts at one second and backs off to thirty.
pub fn new_control_plane() -> (p: ControlPlane)
    ensures
        p.stage is Connecting,
        p.backoff.initial() == 1000,
        p.backoff.maximum() == 30000,
        p.backoff.current() == 1000,
{
    ControlPlane { stage: PlaneStage::Connecting, backoff: ExponentialBackoff::new(1000, 30000) }
}

impl ControlPlane {
    /// The phase a registration leads to: connected when the frame is claimed.
    pub open spec fn registration_phase(claimed: bool) -> ControllerPhase {
        if claimed {
            ControllerPhase::Connected
        } else {
            ControllerPhase::AwaitingConfiguration
        }
    }

    fn back_off(&mut self) -> (s: PlaneStep)
        ensures
            final(self).stage is Waiting,
            final(self).backoff.initial() == old(self).backoff.initial(),
            final(self).backoff.maximum() == old(self).backoff.maximum(),
            s.phase == Some(ControllerPhase::Searching),
            s.action matches PlaneAction::Wait(d) && d == old(self).backoff.current(),
            final(self).backoff.current() == if 2 * old(self).backoff.current()
                <= old(self).backoff.maximum() {
                2 * old(self).backoff.current()
            } else {
                old(self).backoff.maximum() as int
            },
    {
        let delay = self.backoff.next_delay();
        self.stage = PlaneStage::Waiting;
        PlaneStep { phase: Some(ControllerPhase::Searching), action: PlaneAction::Wait(delay) }
    }

    /// Advances the loop by one observation.
    ///
    /// A successful connection resets the backoff and publishes
    /// `AwaitingConfiguration`. Connected, the loop alternates between sending
    /// queued status messages and reading from the controller: a registration
    /// publishes `Connected` when claimed and `AwaitingConfiguration`
    /// otherwise; any other valid message publishes `Connected` and is handed
    /// to the render loop; an invalid one is dropped. A failed connection,
    /// send or read publishes `Searching` and waits out the next backoff
    /// delay before reconnecting. A shutdown request, a closed command queue
    /// or a vanished render loop stops the loop for good; so does an event
    /// the current stage does not expect. A status message queued while
    /// waiting is dropped.
    pub fn step(&mut self, event: PlaneEvent) -> (s: PlaneStep)
        ensures
            final(self).backoff.initial() == old(self).backoff.initial(),
            final(self).backoff.maximum() == old(self).backoff.maximum(),
            match (old(self).stage, event) {
                (PlaneStage::Connecting, PlaneEvent::Connected) => final(self).stage is CheckingCommands
                    && final(self).backoff.current() == old(self).backoff.initial()
                    && s.phase == Some(ControllerPhase::AwaitingConfiguration)
                    && s.action is CheckCommands,
                (PlaneStage::Connecting, PlaneEvent::ConnectFailed) | (
                    PlaneStage::Sending,
                    PlaneEvent::SendFailed,
                ) | (PlaneStage::Reading, PlaneEvent::ReadFailed) => final(self).stage is Waiting
                    && s.phase == Some(ControllerPhase::Searching)
                    && s.action == PlaneAction::Wait(old(self).backoff.current()),
                (PlaneStage::CheckingCommands, PlaneEvent::Command(None)) => final(self).stage is Reading
                    && s.phase is None && s.action is Read,
                (
                    PlaneStage::CheckingCommands,
                    PlaneEvent::Command(Some(TransportCommand::SendStatus(m))),
                ) => final(self).stage is Sending && s.phase is None && s.action == PlaneAction::Send(m),
                (PlaneStage::Sending, PlaneEvent::Sent) => final(self).stage is Reading && s.phase is None
                    && s.action is Read,
                (PlaneStage::Reading, PlaneEvent::Message(Ok(ControlEvent::Registration(r)))) => final(self).stage is CheckingCommands && s.phase == Some(
                    Self::registration_phase(r.claimed),
                ) && s.action is CheckCommands,
                (PlaneStage::Reading, PlaneEvent::Message(Ok(ev))) => final(self).stage is Forwarding
                    && s.phase == Some(ControllerPhase::Connected) && s.action == PlaneAction::Forward(
                    ev,
                ),
                (PlaneStage::Reading, PlaneEvent::Message(Err(_))) | (
                    PlaneStage::Reading,
                    PlaneEvent::NoMessage,
                ) | (PlaneStage::Forwarding, PlaneEvent::Forwarded) => final(self).stage is CheckingCommands
                    && s.phase is None && s.action is CheckCommands,
                (PlaneStage::Waiting, PlaneEvent::WaitEnded { shutdown }) => if shutdown {
                    final(self).stage is Stopped && s.phase is None && s.action is Stop
                } else {
                    final(self).stage is Connecting && s.phase is None && s.action is Connect
                },
                _ => final(self).stage is Stopped && s.phase is None && s.action is Stop,
            },
            !(old(self).stage is Connecting && event is Connected) && !(final(self).stage is Waiting)
                ==> final(self).backoff.current() == old(self).backoff.current(),
            (old(self).stage is Waiting || old(self).stage is Connecting || old(self).stage is Sending
                || old(self).stage is Reading) && final(self).stage is Waiting ==> final(self).backoff.current() == if 2 * old(self).backoff.current()
                <= old(self).backoff.maximum() {
                2 * old(self).backoff.current()
            } else {
                old(self).backoff.maximum() as int
            },
    {
        let mut stage = PlaneStage::Stopped;
        std::mem::swap(&mut stage, &mut self.stage);
        match (stage, event) {
            (PlaneStage::Connecting, PlaneEvent::Connected) => {
                self.backoff.reset();
                self.stage = PlaneStage::CheckingCommands;
                PlaneStep {
                    phase: Some(ControllerPhase::AwaitingConfiguration),
                    action: PlaneAction::CheckCommands,
                }
            },
            (PlaneStage::Connecting, PlaneEvent::ConnectFailed) => self.back_off(),
            (PlaneStage::Sending, PlaneEvent::SendFailed) => self.back_off(),
            (PlaneStage::Reading, PlaneEvent::ReadFailed) => self.back_off(),
            (PlaneStage::CheckingCommands, PlaneEvent::Command(None)) => {
                self.stage = PlaneStage::Reading;
                PlaneStep { phase: None, action: PlaneAction::Read }
            },
            (
                PlaneStage::CheckingCommands,
                PlaneEvent::Command(Some(TransportCommand::SendStatus(m))),
            ) => {
                self.stage = PlaneStage::Sending;
                PlaneStep { phase: None, action: PlaneAction::Send(m) }
            },
            (PlaneStage::Sending, PlaneEvent::Sent) => {
                self.stage = PlaneStage::Reading;
                PlaneStep { phase: None, action: PlaneAction::Read }
            },
            (PlaneStage::Reading, PlaneEvent::Message(Ok(ControlEvent::Registration(r)))) => {
                self.stage = PlaneStage::CheckingCommands;
                let phase = if r.claimed {
                    ControllerPhase::Connected
                } else {
                    ControllerPhase::AwaitingConfiguration
                };
                PlaneStep { phase: Some(phase), action: PlaneAction::CheckCommands }
            },
            (PlaneStage::Reading, PlaneEvent::Message(Ok(ev))) => {
                self.stage = PlaneStage::Forwarding;
                PlaneStep { phase: Some(ControllerPhase::Connected), action: PlaneAction::Forward(ev) }
            },
            (PlaneStage::Reading, PlaneEvent::Message(Err(_))) => {
                self.stage = PlaneStage::CheckingCommands;
                PlaneStep { phase: None, action: PlaneAction::CheckCommands }
            },
            (PlaneStage::Reading, PlaneEvent::NoMessage) => {
                self.stage = PlaneStage::CheckingCommands;
                PlaneStep { phase: None, action: PlaneAction::CheckCommands }
            },
            (PlaneStage::Forwarding, PlaneEvent::Forwarded) => {
                self.stage = PlaneStage::CheckingCommands;
                PlaneStep { phase: None, action: PlaneAction::CheckCommands }
            },
            (PlaneStage::Waiting, PlaneEvent::WaitEnded { shutdown }) => {
                if shutdown {
                    PlaneStep { phase: None, action: PlaneAction::Stop }
                } else {
                    self.stage = PlaneStage::Connecting;
                    PlaneStep { phase: None, action: PlaneAction::Connect }
                }
            },
            _ => PlaneStep { phase: None, action: PlaneAction::Stop },
        }
    }
}

/// What the render loop does with an event.
#[derive(Clone, Copy, Debug, PartialEq, Eq, Structural)]
pub enum RenderWork {
    /// Announce the render, then render the photo.
    Render,
    ReloadUi,
    Reboot,
    /// A registration: nothing for the render loop to do.
    Nothing,
}

pub open spec fn work_for(event: ControlEvent) -> RenderWork {
    match event {
        ControlEvent::Render(_) => RenderWork::Render,
        ControlEvent::Command(c) => match c.command {
            DeviceCommand::ReloadUi => RenderWork::ReloadUi,
            DeviceCommand::Reboot => RenderWork::Reboot,
        },
        ControlEvent::Registration(_) => RenderWork::Nothing,
    }
}

/// The work an event asks of the render loop.
pub fn render_work(event: &ControlEvent) -> (w: RenderWork)
    ensures
        w == work_for(*event),
{
    match event {
        ControlEvent::Render(_) => RenderWork::Render,
        ControlEvent::Command(c) => match c.command {
            DeviceCommand::ReloadUi => RenderWork::ReloadUi,
            DeviceCommand::Reboot => RenderWork::Reboot,
        },
        ControlEvent::Registration(_) => RenderWork::Nothing,
    }
}

/// The status sent before a photo is rendered.
pub fn render_started(request: &RenderRequest) -> (m: OutboundStatusMessage)
    ensures
        m == (OutboundStatusMessage::RenderStarted {
            media_url: request.media_url,
            correlation_id: request.correlation_id,
        }),
{
    OutboundStatusMessage::RenderStarted {
        media_url: request.media_url.clone(),
        correlation_id: request.correlation_id.clone(),
    }
}

/// The status sent once a render finished: completed, or an error carrying
/// `render failed: ` and the failure's description.
pub fn render_finished(request: RenderRequest, result: Result<(), String>) -> (m: OutboundStatusMessage)
    ensures
        match result {
            Ok(()) => m == (OutboundStatusMessage::RenderCompleted {
                media_url: request.media_url,
                correlation_id: request.correlation_id,
            }),
            Err(e) => m matches OutboundStatusMessage::Error { message, correlation_id } && message@
                == "render failed: "@ + e@ && correlation_id == request.correlation_id,
        },
{
    match result {
        Ok(()) => OutboundStatusMessage::RenderCompleted {
            media_url: request.media_url,
            correlation_id: request.correlation_id,
        },
        Err(e) => {
            let mut message = owned("render failed: ");
            push_str(&mut message, e.as_str());
            OutboundStatusMessage::Error { message, correlation_id: request.correlation_id }
        },
    }
}

/// The status sent once a command ran: acknowledged, or an error carrying
/// `command failed: ` and the failure's description.
pub fn command_finished(request: CommandRequest, result: Result<(), String>) -> (m: OutboundStatusMessage)
    ensures
        match result {
            Ok(()) => m == (OutboundStatusMessage::CommandAcknowledged {
                cmd: request.command,
                correlation_id: request.correlation_id,
            }),
            Err(e) => m matches OutboundStatusMessage::Error { message, correlation_id } && message@
                == "command failed: "@ + e@ && correlation_id == request.correlation_id,
        },
{
    match result {
        Ok(()) => OutboundStatusMessage::CommandAcknowledged {
            cmd: request.command,
            correlation_id: request.correlation_id,
        },
        Err(e) => {
            let mut message = owned("command failed: ");
            push_str(&mut message, e.as_str());
            OutboundStatusMessage::Error { message, correlation_id: request.correlation_id }
        },
    }
}

} // verus!
