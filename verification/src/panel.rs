//! The panel's drawing surfaces.
//!
//! Everything draws into a landscape canvas in the orientation a person sees.
//! The panel itself is physically portrait, so before each transfer the
//! canvas is rotated a quarter turn into a second buffer in the panel's own
//! orientation, which is what the display driver is handed.

use vstd::prelude::*;
use crate::{PANEL_LOGICAL_HEIGHT, PANEL_LOGICAL_WIDTH};

verus! {

/// Native panel width, in the panel's own (portrait) orientation.
pub const PANEL_WIDTH: usize = 800;

/// Native panel height, in the panel's own (portrait) orientation.
pub const PANEL_HEIGHT: usize = 1280;

/// Number of pixels on the panel, in either orientation.
pub const PANEL_PIXELS: usize = 1_024_000;

/// The landscape canvas and the portrait buffer it is rotated into.
#[derive(Debug)]
pub struct Panel {
    canvas: Vec<u16>,
    rotated: Vec<u16>,
}

/// What the panel's buffers hold.
pub struct PanelView {
    /// The landscape canvas, row by row, `PANEL_LOGICAL_WIDTH` pixels a row.
    pub canvas: Seq<u16>,
    /// The portrait buffer, row by row, `PANEL_WIDTH` pixels a row.
    pub rotated: Seq<u16>,
}

impl View for Panel {
    type V = PanelView;

    closed spec fn view(&self) -> PanelView {
        PanelView { canvas: self.canvas@, rotated: self.rotated@ }
    }
}

/// A frame handed to the panel that holds fewer pixels than the panel has.
#[derive(Debug, PartialEq, Eq)]
pub struct FrameTooSmall {
    /// How many pixels the frame held.
    pub pixels: usize,
}

/// The portrait buffer for a landscape canvas: the landscape pixel at column
/// `x`, row `y` lands at column `PANEL_WIDTH - 1 - y`, row `x`.
pub open spec fn rotated_quarter(canvas: Seq<u16>) -> Seq<u16> {
    Seq::new(
        PANEL_PIXELS as nat,
        |j: int|
            canvas[((PANEL_LOGICAL_HEIGHT - 1) - j % (PANEL_WIDTH as int)) * (
            PANEL_LOGICAL_WIDTH as int) + j / (PANEL_WIDTH as int)],
    )
}

/// A canvas of one colour.
pub open spec fn filled(colour: u16) -> Seq<u16> {
    Seq::new(PANEL_PIXELS as nat, |i: int| colour)
}

/// Where the landscape pixel at column `x`, row `y` sits in the canvas.
pub open spec fn canvas_index(x: int, y: int) -> int {
    y * PANEL_LOGICAL_WIDTH + x
}

proof fn lemma_rotated_position(x: int, y: int)
    requires
        0 <= x < PANEL_LOGICAL_WIDTH,
        0 <= y < PANEL_LOGICAL_HEIGHT,
    ensures
        ({
            let j = x * PANEL_WIDTH + (PANEL_LOGICAL_HEIGHT - 1 - y);
            &&& 0 <= j < PANEL_PIXELS
            &&& j / (PANEL_WIDTH as int) == x
            &&& j % (PANEL_WIDTH as int) == PANEL_LOGICAL_HEIGHT - 1 - y
        }),
{
    let j = x * 800 + (799 - y);
    vstd::arithmetic::div_mod::lemma_fundamental_div_mod_converse(j, 800, x, 799 - y);
}

/// Every landscape pixel lands at exactly one portrait position: column
/// `x`, row `y` of the canvas goes to row `x`, column `PANEL_WIDTH - 1 - y`,
/// and distinct pixels go to distinct positions.
pub proof fn lemma_rotation_places_every_pixel(canvas: Seq<u16>, x1: int, y1: int, x2: int, y2: int)
    requires
        0 <= x1 < PANEL_LOGICAL_WIDTH,
        0 <= y1 < PANEL_LOGICAL_HEIGHT,
        0 <= x2 < PANEL_LOGICAL_WIDTH,
        0 <= y2 < PANEL_LOGICAL_HEIGHT,
    ensures
        rotated_quarter(canvas)[x1 * PANEL_WIDTH + (PANEL_LOGICAL_HEIGHT - 1 - y1)] == canvas[canvas_index(
            x1,
            y1,
        )],
        0 <= x1 * PANEL_WIDTH + (PANEL_LOGICAL_HEIGHT - 1 - y1) < PANEL_PIXELS,
        (x1, y1) != (x2, y2) ==> x1 * PANEL_WIDTH + (PANEL_LOGICAL_HEIGHT - 1 - y1) != x2
            * PANEL_WIDTH + (PANEL_LOGICAL_HEIGHT - 1 - y2),
{
    lemma_rotated_position(x1, y1);
    lemma_rotated_position(x2, y2);
}

/// Rotates the landscape `src` a quarter turn into the portrait `dst`: the
/// pixel at column `x`, row `y` of `src` goes to index
/// `x * PANEL_WIDTH + (PANEL_LOGICAL_HEIGHT - 1 - y)` of `dst`.
fn rotate_90(src: &Vec<u16>, dst: &mut Vec<u16>)
    requires
        src@.len() == PANEL_PIXELS,
        old(dst)@.len() == PANEL_PIXELS,
    ensures
        final(dst)@ == rotated_quarter(src@),
{
    let mut y: usize = 0;
    while y < 800
        invariant
            src@.len() == PANEL_PIXELS,
            dst@.len() == PANEL_PIXELS,
            y <= 800,
            forall|j: int|
                0 <= j < PANEL_PIXELS && 799 - j % 800 < y ==> #[trigger] dst@[j] == rotated_quarter(
                    src@,
                )[j],
        decreases 800 - y,
    {
        let mut x: usize = 0;
        while x < 1280
            invariant
                src@.len() == PANEL_PIXELS,
                dst@.len() == PANEL_PIXELS,
                y < 800,
                x <= 1280,
                forall|j: int|
                    0 <= j < PANEL_PIXELS && (799 - j % 800 < y || (799 - j % 800 == y && j / 800
                        < x)) ==> #[trigger] dst@[j] == rotated_quarter(src@)[j],
            decreases 1280 - x,
        {
            proof {
                lemma_rotated_position(x as int, y as int);
            }
            let k: usize = x * 800 + (799 - y);
            dst.set(k, src[y * 1280 + x]);
            x = x + 1;
        }
        y = y + 1;
    }
}

impl Panel {
    /// Both buffers hold exactly one pixel per panel position.
    pub closed spec fn well_formed(&self) -> bool {
        self.canvas@.len() == PANEL_PIXELS && self.rotated@.len() == PANEL_PIXELS
    }

    /// Both buffers, black.
    pub fn new() -> (p: Self)
        ensures
            p.well_formed(),
            p@.canvas == filled(0),
            p@.rotated == filled(0),
    {
        let canvas = black_buffer();
        let rotated = black_buffer();
        Panel { canvas, rotated }
    }

    /// Clears the whole canvas to one colour; the portrait buffer is left as
    /// it was until the next flush.
    pub fn clear(&mut self, colour: u16)
        requires
            old(self).well_formed(),
        ensures
            final(self).well_formed(),
            final(self)@.canvas == filled(colour),
            final(self)@.rotated == old(self)@.rotated,
    {
        let mut i: usize = 0;
        while i < PANEL_PIXELS
            invariant
                self.canvas@.len() == PANEL_PIXELS,
                self.rotated@ == old(self)@.rotated,
                self.rotated@.len() == PANEL_PIXELS,
                i <= PANEL_PIXELS,
                forall|j: int| 0 <= j < i ==> #[trigger] self.canvas@[j] == colour,
            decreases PANEL_PIXELS - i,
        {
            self.canvas.set(i, colour);
            i = i + 1;
        }
        assert(self.canvas@ =~= filled(colour));
    }

    /// Draws one pixel of the landscape canvas. A point off the canvas, on
    /// either side, is ignored.
    pub fn draw_pixel(&mut self, x: i32, y: i32, colour: u16)
        requires
            old(self).well_formed(),
        ensures
            final(self).well_formed(),
            (0 <= x < PANEL_LOGICAL_WIDTH && 0 <= y < PANEL_LOGICAL_HEIGHT) ==> final(self)@.canvas
                == old(self)@.canvas.update(canvas_index(x as int, y as int), colour),
            !(0 <= x < PANEL_LOGICAL_WIDTH && 0 <= y < PANEL_LOGICAL_HEIGHT) ==> final(self)@.canvas
                == old(self)@.canvas,
            final(self)@.rotated == old(self)@.rotated,
    {
        if x < 0 || y < 0 || x >= 1280 || y >= 800 {
            return;
        }
        let index: usize = (y as usize) * 1280 + (x as usize);
        self.canvas.set(index, colour);
    }

    /// Rotates the canvas into the portrait buffer, ready to be handed to the
    /// display driver.
    pub fn flush(&mut self)
        requires
            old(self).well_formed(),
        ensures
            final(self).well_formed(),
            final(self)@.canvas == old(self)@.canvas,
            final(self)@.rotated == rotated_quarter(old(self)@.canvas),
    {
        rotate_90(&self.canvas, &mut self.rotated);
    }

    /// Takes an already-prepared landscape frame, such as a photo, as the
    /// whole canvas and flushes it. Only the first `PANEL_PIXELS` pixels are
    /// used; a frame with fewer is refused and nothing changes.
    pub fn present(&mut self, pixels: &[u16]) -> (r: Result<(), FrameTooSmall>)
        requires
            old(self).well_formed(),
        ensures
            final(self).well_formed(),
            pixels@.len() < PANEL_PIXELS ==> r == Err::<(), _>(
                FrameTooSmall { pixels: pixels@.len() as usize },
            ) && final(self)@ == old(self)@,
            pixels@.len() >= PANEL_PIXELS ==> r is Ok && final(self)@.canvas == pixels@.subrange(
                0,
                PANEL_PIXELS as int,
            ) && final(self)@.rotated == rotated_quarter(pixels@.subrange(0, PANEL_PIXELS as int)),
    {
        if pixels.len() < PANEL_PIXELS {
            return Err(FrameTooSmall { pixels: pixels.len() });
        }
        let mut i: usize = 0;
        while i < PANEL_PIXELS
            invariant
                self.canvas@.len() == PANEL_PIXELS,
                self.rotated@.len() == PANEL_PIXELS,
                pixels@.len() >= PANEL_PIXELS,
                i <= PANEL_PIXELS,
                forall|j: int| 0 <= j < i ==> #[trigger] self.canvas@[j] == pixels@[j],
            decreases PANEL_PIXELS - i,
        {
            self.canvas.set(i, pixels[i]);
            i = i + 1;
        }
        assert(self.canvas@ =~= pixels@.subrange(0, PANEL_PIXELS as int));
        self.flush();
        Ok(())
    }

    /// The portrait buffer, as the display driver takes it.
    pub fn rotated(&self) -> (px: &[u16])
        ensures
            px@ == self@.rotated,
    {
        self.rotated.as_slice()
    }
}

/// A panel-sized buffer of black pixels.
fn black_buffer() -> (v: Vec<u16>)
    ensures
        v@ == filled(0),
{
    let mut v: Vec<u16> = Vec::new();
    let mut i: usize = 0;
    while i < PANEL_PIXELS
        invariant
            i <= PANEL_PIXELS,
            v@ == Seq::new(i as nat, |j: int| 0u16),
        decreases PANEL_PIXELS - i,
    {
        v.push(0);
        i = i + 1;
        assert(v@ =~= Seq::new(i as nat, |j: int| 0u16));
    }
    v
}

} // verus!
