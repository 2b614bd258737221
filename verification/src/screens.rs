//! The frame's setup screens: centred lines of text on true black. Two exist
//! only to get the frame adopted; once Home Assistant drives it the panel
//! shows photos and nothing else. The text itself is rasterised by the
//! caller's font renderer; this module says what goes where.

use vstd::prelude::*;
use crate::panel::Panel;
use crate::text::owned;
use crate::ui::Showing;

verus! {

/// True black: anything lighter shows the panel's banding.
pub const BACKGROUND: u16 = 0x0000;

/// White, for the lines that matter.
pub const PRIMARY: u16 = 0xFFFF;

/// Dim grey for supporting lines, well clear of the near-black range
/// (red 18, green 37, blue 18 in RGB565).
pub const SECONDARY: u16 = 0x94B2;

/// One line of centred text: its baseline row, colour and whether it uses the
/// large font.
#[derive(Clone, Debug, PartialEq, Eq)]
pub struct ScreenLine {
    pub text: String,
    pub y: i32,
    pub colour: u16,
    pub large: bool,
}

/// A line as plain values.
pub open spec fn line_view(l: ScreenLine) -> (Seq<char>, i32, u16, bool) {
    (l.text@, l.y, l.colour, l.large)
}

/// The lines of each setup screen, top to bottom; photos and the blank
/// screen have none.
pub open spec fn screen_text(s: Showing) -> Seq<(Seq<char>, i32, u16, bool)> {
    match s {
        Showing::Starting => seq![("Starting up"@, 400i32, PRIMARY, true)],
        Showing::WifiSetup(ssid) => seq![
            ("Connect this frame to Wi-Fi"@, 300i32, PRIMARY, true),
            ("Join this network from your phone, then follow the prompt."@, 350i32, SECONDARY, false),
            (ssid@, 430i32, PRIMARY, true),
        ],
        Showing::AwaitingAdoption(id) => seq![
            ("Add this frame in Home Assistant"@, 270i32, PRIMARY, true),
            (
                "Settings > Devices & Services > Add Integration > PhotoFrame Bridge"@,
                318i32,
                SECONDARY,
                false,
            ),
            (id@, 400i32, PRIMARY, true),
            ("Photos will start appearing here on their own."@, 470i32, SECONDARY, false),
        ],
        Showing::Ready => seq![("Waiting for photos"@, 400i32, SECONDARY, false)],
        _ => Seq::empty(),
    }
}

fn line(text: String, y: i32, colour: u16, large: bool) -> (l: ScreenLine)
    ensures
        l == (ScreenLine { text, y, colour, large }),
{
    ScreenLine { text, y, colour, large }
}

/// The lines to draw for a screen.
fn screen_lines(screen: &Showing) -> (lines: Vec<ScreenLine>)
    ensures
        lines@.map_values(|l: ScreenLine| line_view(l)) == screen_text(*screen),
{
    let mut lines: Vec<ScreenLine> = Vec::new();
    match screen {
        Showing::Starting => {
            lines.push(line(owned("Starting up"), 400, PRIMARY, true));
        },
        Showing::WifiSetup(ssid) => {
            lines.push(line(owned("Connect this frame to Wi-Fi"), 300, PRIMARY, true));
            lines.push(
                line(
                    owned("Join this network from your phone, then follow the prompt."),
                    350,
                    SECONDARY,
                    false,
                ),
            );
            lines.push(line(ssid.clone(), 430, PRIMARY, true));
        },
        Showing::AwaitingAdoption(id) => {
            lines.push(line(owned("Add this frame in Home Assistant"), 270, PRIMARY, true));
            lines.push(
                line(
                    owned("Settings > Devices & Services > Add Integration > PhotoFrame Bridge"),
                    318,
                    SECONDARY,
                    false,
                ),
            );
            lines.push(line(id.clone(), 400, PRIMARY, true));
            lines.push(
                line(
                    owned("Photos will start appearing here on their own."),
                    470,
                    SECONDARY,
                    false,
                ),
            );
        },
        Showing::Ready => {
            lines.push(line(owned("Waiting for photos"), 400, SECONDARY, false));
        },
        _ => {},
    }
    assert(lines@.map_values(|l: ScreenLine| line_view(l)) =~= screen_text(*screen));
    lines
}

/// Starts drawing a setup screen: the canvas is cleared to true black and the
/// lines to draw on it are returned. The caller draws them and flushes.
pub fn prepare_screen(panel: &mut Panel, screen: &Showing) -> (lines: Vec<ScreenLine>)
    requires
        old(panel).well_formed(),
    ensures
        final(panel).well_formed(),
        final(panel)@.canvas == crate::panel::filled(BACKGROUND),
        final(panel)@.rotated == old(panel)@.rotated,
        lines@.map_values(|l: ScreenLine| line_view(l)) == screen_text(*screen),
{
    panel.clear(BACKGROUND);
    screen_lines(screen)
}

} // verus!
