//! What the panel shows: the controller phase it reflects, and the choice
//! between a photo and one of the setup screens.

use vstd::prelude::*;
use crate::state::{AppState, ControllerPhase, NetworkPhase};
use crate::text::{owned, str_eq};
use crate::panel::{FrameTooSmall, Panel, PANEL_PIXELS, rotated_quarter};
use crate::rendered_image::RenderedImageSnapshot;

verus! {

/// A copy of a controller phase.
pub fn copy_phase(p: &ControllerPhase) -> (c: ControllerPhase)
    ensures
        c == *p,
{
    match p {
        ControllerPhase::NotStarted => ControllerPhase::NotStarted,
        ControllerPhase::Searching => ControllerPhase::Searching,
        ControllerPhase::AwaitingConfiguration => ControllerPhase::AwaitingConfiguration,
        ControllerPhase::Connected => ControllerPhase::Connected,
        ControllerPhase::Error(e) => ControllerPhase::Error(e.clone()),
    }
}

/// The controller phase shown on the panel, with a counter bumped on every
/// change so the panel can tell a new phase from a repeated one.
#[derive(Debug)]
pub struct ControllerState {
    pub generation: u64,
    pub phase: ControllerPhase,
}

#[derive(Debug)]
pub struct ControllerStateSnapshot {
    pub generation: u64,
    pub phase: ControllerPhase,
}

impl ControllerState {
    /// Not started, at generation zero.
    pub fn new() -> (s: Self)
        ensures
            s.generation == 0,
            s.phase == ControllerPhase::NotStarted,
    {
        ControllerState { generation: 0, phase: ControllerPhase::NotStarted }
    }
}

/// Publishes a new controller phase under the next generation.
pub fn set_controller_phase(state: &mut ControllerState, phase: ControllerPhase)
    ensures
        final(state).generation == old(state).generation.wrapping_add(1),
        final(state).phase == phase,
{
    state.generation = state.generation.wrapping_add(1);
    state.phase = phase;
}

/// The current phase and generation.
pub fn controller_state_snapshot(state: &ControllerState) -> (s: ControllerStateSnapshot)
    ensures
        s.generation == state.generation,
        s.phase == state.phase,
{
    ControllerStateSnapshot { generation: state.generation, phase: copy_phase(&state.phase) }
}

/// What the panel is showing.
#[derive(Debug)]
pub enum Showing {
    Nothing,
    Starting,
    /// Join the setup network with this name.
    WifiSetup(String),
    /// Waiting to be added in Home Assistant; shows this frame identifier.
    AwaitingAdoption(String),
    Ready,
    /// The photo of this image generation.
    Photo(u64),
}

/// The setup network name shown when none is known yet.
pub open spec fn default_setup_name() -> Seq<char> {
    "Photo Frame setup"@
}

/// What should be on the panel, as a view: a photo always wins; otherwise a
/// claimed frame is ready, a provisioning frame shows its setup network, a
/// connected frame waits for adoption, and anything else is starting.
pub open spec fn wanted_view(
    photo_generation: Option<u64>,
    state: AppState,
    controller: ControllerPhase,
) -> (int, Seq<char>) {
    match photo_generation {
        Some(g) => (5, Seq::empty()),
        None => if controller == ControllerPhase::Connected {
            (4, Seq::empty())
        } else if state.network_phase == NetworkPhase::Provisioning {
            (2, match state.provisioning_ssid {
                Some(s) => s@,
                None => default_setup_name(),
            })
        } else if state.network_phase == NetworkPhase::Connected {
            (3, match state.device_id {
                Some(s) => s@,
                None => "unknown"@,
            })
        } else {
            (1, Seq::empty())
        },
    }
}

/// A screen as a tag and its text; photos compare by generation.
pub open spec fn showing_view(s: Showing) -> (int, Seq<char>) {
    match s {
        Showing::Nothing => (0, Seq::empty()),
        Showing::Starting => (1, Seq::empty()),
        Showing::WifiSetup(t) => (2, t@),
        Showing::AwaitingAdoption(t) => (3, t@),
        Showing::Ready => (4, Seq::empty()),
        Showing::Photo(_) => (5, Seq::empty()),
    }
}

/// The screen the panel should show.
pub fn wanted_screen(
    photo_generation: Option<u64>,
    state: &AppState,
    controller: &ControllerPhase,
) -> (w: Showing)
    ensures
        showing_view(w) == wanted_view(photo_generation, *state, *controller),
        photo_generation matches Some(g) ==> w == Showing::Photo(g),
{
    if let Some(g) = photo_generation {
        return Showing::Photo(g);
    }
    if let ControllerPhase::Connected = controller {
        return Showing::Ready;
    }
    match state.network_phase {
        NetworkPhase::Provisioning => Showing::WifiSetup(
            match &state.provisioning_ssid {
                Some(s) => s.clone(),
                None => owned("Photo Frame setup"),
            },
        ),
        NetworkPhase::Connected => Showing::AwaitingAdoption(
            match &state.device_id {
                Some(s) => s.clone(),
                None => owned("unknown"),
            },
        ),
        NetworkPhase::Unprovisioned => Showing::Starting,
    }
}

/// Whether two screens look the same.
pub fn same_screen(a: &Showing, b: &Showing) -> (r: bool)
    ensures
        r == match (*a, *b) {
            (Showing::Photo(x), Showing::Photo(y)) => x == y,
            _ => showing_view(*a) == showing_view(*b),
        },
{
    match (a, b) {
        (Showing::Nothing, Showing::Nothing) => true,
        (Showing::Starting, Showing::Starting) => true,
        (Showing::Ready, Showing::Ready) => true,
        (Showing::WifiSetup(x), Showing::WifiSetup(y)) => str_eq(x.as_str(), y.as_str()),
        (Showing::AwaitingAdoption(x), Showing::AwaitingAdoption(y)) => str_eq(
            x.as_str(),
            y.as_str(),
        ),
        (Showing::Photo(x), Showing::Photo(y)) => *x == *y,
        _ => false,
    }
}

/// Reconciles the panel with the state: returns the screen to draw, if it
/// differs from what is showing, and records it as showing. Redrawing an
/// unchanged screen is skipped.
pub fn sync_screen(
    showing: &mut Showing,
    photo_generation: Option<u64>,
    state: &AppState,
    controller: &ControllerPhase,
) -> (draw: bool)
    ensures
        draw == !(match (*old(showing), *final(showing)) {
            (Showing::Photo(x), Showing::Photo(y)) => x == y,
            _ => showing_view(*old(showing)) == showing_view(*final(showing)),
        }),
        showing_view(*final(showing)) == wanted_view(photo_generation, *state, *controller),
        photo_generation matches Some(g) ==> *final(showing) == Showing::Photo(g),
{
    let wanted = wanted_screen(photo_generation, state, controller);
    if same_screen(showing, &wanted) {
        proof {
            assert(showing_view(*showing) == showing_view(wanted));
        }
        if let Some(g) = photo_generation {
            *showing = wanted;
        }
        return false;
    }
    *showing = wanted;
    true
}

/// The panel and what it is showing.
#[derive(Debug)]
pub struct FrameUi {
    pub panel: Panel,
    pub showing: Showing,
}

/// A black panel showing nothing yet.
pub fn create_ui() -> (ui: FrameUi)
    ensures
        ui.panel.well_formed(),
        ui.showing == Showing::Nothing,
{
    FrameUi { panel: Panel::new(), showing: Showing::Nothing }
}

impl FrameUi {
    /// Reconciles the panel with the state. A photo always wins: when the
    /// queue has one and it is not already up, it is presented straight into
    /// the panel's buffers (a frame too small is refused and nothing changes).
    /// Otherwise the wanted setup screen is recorded, and `Ok(true)` asks the
    /// caller to draw it; an unchanged screen is not redrawn.
    pub fn sync(
        &mut self,
        state: &AppState,
        rendered: &RenderedImageSnapshot,
        controller: &ControllerPhase,
    ) -> (r: Result<bool, FrameTooSmall>)
        requires
            old(self).panel.well_formed(),
        ensures
            final(self).panel.well_formed(),
            match rendered.image {
                Some(img) => if old(self).showing == Showing::Photo(rendered.generation) {
                    r == Ok::<bool, FrameTooSmall>(false) && final(self).panel@ == old(self).panel@
                        && final(self).showing == old(self).showing
                } else if img@.pixels.len() < PANEL_PIXELS {
                    r == Err::<bool, _>(FrameTooSmall { pixels: img@.pixels.len() as usize })
                        && final(self).panel@ == old(self).panel@ && final(self).showing == old(
                        self,
                    ).showing
                } else {
                    &&& r == Ok::<bool, FrameTooSmall>(false)
                    &&& final(self).showing == Showing::Photo(rendered.generation)
                    &&& final(self).panel@.canvas == img@.pixels.subrange(0, PANEL_PIXELS as int)
                    &&& final(self).panel@.rotated == rotated_quarter(
                        img@.pixels.subrange(0, PANEL_PIXELS as int),
                    )
                },
                None => {
                    &&& final(self).panel@ == old(self).panel@
                    &&& showing_view(final(self).showing) == wanted_view(None, *state, *controller)
                    &&& r == Ok::<bool, FrameTooSmall>(
                        showing_view(old(self).showing) != showing_view(final(self).showing),
                    )
                },
            },
    {
        match &rendered.image {
            Some(img) => {
                if let Showing::Photo(g) = self.showing {
                    if g == rendered.generation {
                        return Ok(false);
                    }
                }
                match self.panel.present(img.rgb565()) {
                    Ok(()) => {
                        self.showing = Showing::Photo(rendered.generation);
                        Ok(false)
                    },
                    Err(e) => Err(e),
                }
            },
            None => Ok(sync_screen(&mut self.showing, None, state, controller)),
        }
    }
}

} // verus!
