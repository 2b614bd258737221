//! Decoded photos in the panel's own pixel format, and the short queue of
//! them the frame keeps ready so a transition never waits on a download.

use vstd::prelude::*;
use crate::{PANEL_LOGICAL_HEIGHT, PANEL_LOGICAL_WIDTH};
use std::collections::VecDeque;

verus! {

/// A photo as the panel shows it: `width * height` RGB565 pixels, row by row.
#[derive(Debug)]
pub struct RenderedImage {
    width: u32,
    height: u32,
    rgb565: Vec<u16>,
}

/// What a rendered image holds.
pub struct ImageView {
    pub width: u32,
    pub height: u32,
    pub pixels: Seq<u16>,
}

impl View for RenderedImage {
    type V = ImageView;

    closed spec fn view(&self) -> ImageView {
        ImageView { width: self.width, height: self.height, pixels: self.rgb565@ }
    }
}

/// Why pixel data could not become an image.
#[derive(Debug, PartialEq, Eq)]
pub enum PixelError {
    /// The buffer holds `actual` units where the geometry needs `expected`.
    WrongLength { actual: usize, expected: u128 },
}

/// One 8-bit RGB colour reduced to RGB565: five bits of red, six of green and
/// five of blue, red in the top bits.
pub open spec fn rgb565_of(r: u8, g: u8, b: u8) -> u16 {
    ((r as nat / 8) * 2048 + (g as nat / 4) * 32 + (b as nat / 8)) as u16
}

/// The pixels of an 8-bit RGB buffer, three bytes per pixel.
pub open spec fn rgb8_pixels(rgb8: Seq<u8>) -> Seq<u16> {
    Seq::new(
        rgb8.len() / 3,
        |i: int| rgb565_of(rgb8[3 * i], rgb8[3 * i + 1], rgb8[3 * i + 2]),
    )
}

/// The pixels of a little-endian RGB565 buffer, two bytes per pixel.
pub open spec fn le_pixels(bytes: Seq<u8>) -> Seq<u16> {
    Seq::new(bytes.len() / 2, |i: int| (bytes[2 * i] + 256 * bytes[2 * i + 1]) as u16)
}

fn convert_pixel(r: u8, g: u8, b: u8) -> (px: u16)
    ensures
        px == rgb565_of(r, g, b),
{
    let red = ((r >> 3) as u16) << 11;
    let green = ((g >> 2) as u16) << 5;
    let blue = (b >> 3) as u16;
    let px = red | green | blue;
    assert(px == ((r / 8) as nat * 2048 + (g / 4) as nat * 32 + (b / 8) as nat) as u16) by (bit_vector)
        requires
            red == ((r >> 3) as u16) << 11,
            green == ((g >> 2) as u16) << 5,
            blue == (b >> 3) as u16,
            px == red | green | blue,
    ;
    px
}

impl RenderedImage {
    /// The invariant every image keeps: one pixel per position.
    pub closed spec fn well_formed(&self) -> bool {
        self.rgb565@.len() == self.width as int * self.height as int
    }

    #[verifier::type_invariant]
    closed spec fn pixel_count_matches(&self) -> bool {
        self.well_formed()
    }

    /// An image of the given size, refused unless `rgb565` holds exactly
    /// `width * height` pixels.
    pub fn new(width: u32, height: u32, rgb565: Vec<u16>) -> (r: Result<Self, PixelError>)
        ensures
            rgb565@.len() == width as int * height as int ==> (r matches Ok(img) && img@.width
                == width && img@.height == height && img@.pixels == rgb565@),
            rgb565@.len() != width as int * height as int ==> r == Err::<Self, _>(
                PixelError::WrongLength {
                    actual: rgb565@.len() as usize,
                    expected: (width as int * height as int) as u128,
                },
            ),
    {
        assert(width as int * height as int <= 0xffff_ffff_ffff_ffff) by (nonlinear_arith)
            requires
                width <= 0xffff_ffff,
                height <= 0xffff_ffff,
        ;
        let expected: u128 = width as u128 * height as u128;
        if rgb565.len() as u128 != expected {
            return Err(PixelError::WrongLength { actual: rgb565.len(), expected });
        }
        Ok(RenderedImage { width, height, rgb565 })
    }

    /// Converts 8-bit RGB triplets, as an image decoder produces them, refusing
    /// a buffer that is not exactly `width * height * 3` bytes.
    pub fn from_rgb8(width: u32, height: u32, rgb8: &[u8]) -> (r: Result<Self, PixelError>)
        ensures
            rgb8@.len() == width as int * height as int * 3 ==> (r matches Ok(img) && img@.width
                == width && img@.height == height && img@.pixels == rgb8_pixels(rgb8@)),
            rgb8@.len() != width as int * height as int * 3 ==> r == Err::<Self, _>(
                PixelError::WrongLength {
                    actual: rgb8@.len() as usize,
                    expected: (width as int * height as int * 3) as u128,
                },
            ),
    {
        assert(width as int * height as int * 3 <= 0x3_ffff_ffff_ffff_ffff) by (nonlinear_arith)
            requires
                width <= 0xffff_ffff,
                height <= 0xffff_ffff,
        ;
        let expected: u128 = width as u128 * height as u128 * 3;
        if rgb8.len() as u128 != expected {
            return Err(PixelError::WrongLength { actual: rgb8.len(), expected });
        }
        let len: usize = rgb8.len();
        let n: usize = len / 3;
        let mut out: Vec<u16> = Vec::new();
        let mut i: usize = 0;
        while i < n
            invariant
                len == rgb8@.len(),
                n == len / 3,
                i <= n,
                out@ == rgb8_pixels(rgb8@).subrange(0, i as int),
            decreases n - i,
        {
            assert(3 * i + 2 < rgb8@.len()) by (nonlinear_arith)
                requires
                    i < n,
                    n == len / 3,
                    len == rgb8@.len(),
            ;
            let k: usize = 3 * i;
            let px = convert_pixel(rgb8[k], rgb8[k + 1], rgb8[k + 2]);
            out.push(px);
            i = i + 1;
            assert(out@ =~= rgb8_pixels(rgb8@).subrange(0, i as int));
        }
        assert(out@ =~= rgb8_pixels(rgb8@));
        assert(n as int == width as int * height as int) by (nonlinear_arith)
            requires
                n == rgb8@.len() / 3,
                rgb8@.len() == width as int * height as int * 3,
        ;
        RenderedImage::new(width, height, out)
    }

    /// Reads raw little-endian RGB565 at the panel's exact geometry, which is
    /// how Home Assistant sends photos; anything but exactly
    /// `PANEL_LOGICAL_WIDTH * PANEL_LOGICAL_HEIGHT * 2` bytes is refused.
    pub fn from_rgb565_bytes(bytes: &[u8]) -> (r: Result<Self, PixelError>)
        ensures
            bytes@.len() == PANEL_LOGICAL_WIDTH * PANEL_LOGICAL_HEIGHT * 2 ==> (r matches Ok(img)
                && img@.width == PANEL_LOGICAL_WIDTH && img@.height == PANEL_LOGICAL_HEIGHT
                && img@.pixels == le_pixels(bytes@)),
            bytes@.len() != PANEL_LOGICAL_WIDTH * PANEL_LOGICAL_HEIGHT * 2 ==> r == Err::<
                Self,
                _,
            >(
                PixelError::WrongLength {
                    actual: bytes@.len() as usize,
                    expected: (PANEL_LOGICAL_WIDTH * PANEL_LOGICAL_HEIGHT * 2) as u128,
                },
            ),
    {
        let expected: usize = PANEL_LOGICAL_WIDTH * PANEL_LOGICAL_HEIGHT * 2;
        if bytes.len() != expected {
            return Err(
                PixelError::WrongLength { actual: bytes.len(), expected: expected as u128 },
            );
        }
        let n: usize = bytes.len() / 2;
        let mut out: Vec<u16> = Vec::new();
        let mut i: usize = 0;
        while i < n
            invariant
                bytes@.len() == PANEL_LOGICAL_WIDTH * PANEL_LOGICAL_HEIGHT * 2,
                n == bytes@.len() / 2,
                i <= n,
                out@ == le_pixels(bytes@).subrange(0, i as int),
            decreases n - i,
        {
            let lo = bytes[2 * i] as u16;
            let hi = bytes[2 * i + 1] as u16;
            out.push(hi * 256 + lo);
            i = i + 1;
            assert(out@ =~= le_pixels(bytes@).subrange(0, i as int));
        }
        assert(out@ =~= le_pixels(bytes@));
        RenderedImage::new(PANEL_LOGICAL_WIDTH as u32, PANEL_LOGICAL_HEIGHT as u32, out)
    }

    pub fn width(&self) -> (w: u32)
        ensures
            w == self@.width,
    {
        self.width
    }

    pub fn height(&self) -> (h: u32)
        ensures
            h == self@.height,
    {
        self.height
    }

    /// The pixels, row by row; always exactly `width * height` of them.
    pub fn rgb565(&self) -> (px: &[u16])
        ensures
            px@ == self@.pixels,
            px@.len() == self@.width as int * self@.height as int,
    {
        proof {
            use_type_invariant(self);
        }
        self.rgb565.as_slice()
    }

    /// An independent copy of this image.
    pub fn duplicate(&self) -> (c: Self)
        ensures
            c@ == self@,
    {
        proof {
            use_type_invariant(self);
        }
        let mut out: Vec<u16> = Vec::new();
        let mut i: usize = 0;
        while i < self.rgb565.len()
            invariant
                i <= self.rgb565@.len(),
                out@ == self.rgb565@.subrange(0, i as int),
            decreases self.rgb565@.len() - i,
        {
            out.push(self.rgb565[i]);
            i = i + 1;
            assert(out@ =~= self.rgb565@.subrange(0, i as int));
        }
        assert(out@ =~= self.rgb565@);
        RenderedImage { width: self.width, height: self.height, rgb565: out }
    }
}

/// How many decoded photos the frame keeps ready, the one on screen included.
pub const BUFFER_CAPACITY: usize = 3;

/// What the panel should show: the front of the queue, a counter that changes
/// whenever the visible photo does, and how many photos are ready.
#[derive(Debug)]
pub struct RenderedImageSnapshot {
    pub image: Option<RenderedImage>,
    pub generation: u64,
    pub buffered: usize,
}

/// The queue of decoded photos: the front is on screen, the rest wait behind.
#[derive(Debug)]
pub struct RenderedImageState {
    buffer: VecDeque<RenderedImage>,
    generation: u64,
}

impl RenderedImageState {
    /// The photos in the queue, front first.
    pub closed spec fn images(&self) -> Seq<ImageView> {
        self.buffer@.map_values(|img: RenderedImage| img@)
    }

    /// The counter that changes whenever the visible photo changes.
    pub closed spec fn generation(&self) -> u64 {
        self.generation
    }

    /// The bound every queue keeps: at most `BUFFER_CAPACITY` photos.
    #[verifier::type_invariant]
    pub open spec fn well_formed(&self) -> bool {
        self.images().len() <= BUFFER_CAPACITY
    }

    /// An empty queue at generation zero.
    pub fn new() -> (s: Self)
        ensures
            s.well_formed(),
            s.images() == Seq::<ImageView>::empty(),
            s.generation() == 0,
    {
        let s = RenderedImageState { buffer: VecDeque::new(), generation: 0 };
        assert(s.images() =~= Seq::<ImageView>::empty());
        s
    }
}

/// The queue after `image` is pushed: when full, the oldest photo waiting
/// behind the one on screen is dropped first; the front is never displaced.
pub open spec fn pushed(images: Seq<ImageView>, image: ImageView) -> Seq<ImageView> {
    if images.len() >= BUFFER_CAPACITY {
        images.remove(1).push(image)
    } else {
        images.push(image)
    }
}

/// Pushing never displaces the photo on screen and never grows the queue
/// past its capacity; the pushed photo is always the last one waiting, and a
/// full queue loses only its oldest waiting photo.
pub proof fn lemma_push_keeps_front(images: Seq<ImageView>, image: ImageView)
    requires
        images.len() <= BUFFER_CAPACITY,
    ensures
        images.len() > 0 ==> pushed(images, image)[0] == images[0],
        pushed(images, image).len() <= BUFFER_CAPACITY,
        pushed(images, image).last() == image,
        images.len() == BUFFER_CAPACITY ==> pushed(images, image) == seq![
            images[0],
            images[2],
            image,
        ],
{
    if images.len() == BUFFER_CAPACITY {
        assert(pushed(images, image) =~= seq![images[0], images[2], image]);
    }
}

/// Queues a decoded photo behind whatever is on screen.
///
/// A full queue first drops the oldest photo waiting behind the one on
/// screen, so memory stays bounded and the photo on screen stays. The
/// generation changes only when the pushed photo becomes the visible one,
/// that is when the queue was empty.
pub fn push_rendered_image(state: &mut RenderedImageState, image: RenderedImage)
    ensures
        final(state).well_formed(),
        final(state).images() == pushed(old(state).images(), image@),
        final(state).generation() == if old(state).images().len() == 0 {
            old(state).generation().wrapping_add(1)
        } else {
            old(state).generation()
        },
{
    proof {
        use_type_invariant(&*state);
    }
    let mut buffer: VecDeque<RenderedImage> = VecDeque::new();
    std::mem::swap(&mut buffer, &mut state.buffer);
    let ghost before = buffer@;
    let ghost img = image@;
    if buffer.len() >= BUFFER_CAPACITY {
        buffer.remove(1);
    }
    let ghost mid = buffer@;
    buffer.push_back(image);
    let len = buffer.len();
    state.buffer = buffer;
    if len == 1 {
        state.generation = state.generation.wrapping_add(1);
    }
    proof {
        if before.len() >= BUFFER_CAPACITY {
            assert(mid =~= before.remove(1));
            assert(mid.map_values(|i: RenderedImage| i@) =~= before.map_values(
                |i: RenderedImage| i@,
            ).remove(1));
        }
        assert(state.buffer@.map_values(|i: RenderedImage| i@) =~= pushed(
            before.map_values(|i: RenderedImage| i@),
            img,
        ));
    }
}

/// Replaces everything with `image`, shown at once, under a new generation.
pub fn set_rendered_image(state: &mut RenderedImageState, image: RenderedImage)
    ensures
        final(state).well_formed(),
        final(state).images() == seq![image@],
        final(state).generation() == old(state).generation().wrapping_add(1),
{
    let ghost img = image@;
    let mut buffer: VecDeque<RenderedImage> = VecDeque::new();
    buffer.push_back(image);
    state.buffer = buffer;
    state.generation = state.generation.wrapping_add(1);
    assert(state.buffer@.map_values(|i: RenderedImage| i@) =~= seq![img]);
}

/// Moves on to the next queued photo. Returns `false`, changing nothing, when
/// only the current photo is held: the sign that more are needed.
pub fn advance_rendered_image(state: &mut RenderedImageState) -> (advanced: bool)
    ensures
        final(state).well_formed(),
        advanced == (old(state).images().len() >= 2),
        advanced ==> final(state).images() == old(state).images().drop_first()
            && final(state).generation() == old(state).generation().wrapping_add(1),
        !advanced ==> final(state).images() == old(state).images() && final(state).generation()
            == old(state).generation(),
{
    proof {
        use_type_invariant(&*state);
    }
    if state.buffer.len() < 2 {
        return false;
    }
    let mut buffer: VecDeque<RenderedImage> = VecDeque::new();
    std::mem::swap(&mut buffer, &mut state.buffer);
    let ghost before = buffer@;
    buffer.pop_front();
    state.buffer = buffer;
    state.generation = state.generation.wrapping_add(1);
    assert(state.buffer@.map_values(|i: RenderedImage| i@) =~= before.map_values(
        |i: RenderedImage| i@,
    ).drop_first());
    true
}

/// Empties the queue under a new generation.
pub fn clear_rendered_image(state: &mut RenderedImageState)
    ensures
        final(state).well_formed(),
        final(state).images() == Seq::<ImageView>::empty(),
        final(state).generation() == old(state).generation().wrapping_add(1),
{
    state.buffer = VecDeque::new();
    state.generation = state.generation.wrapping_add(1);
    assert(state.buffer@.map_values(|i: RenderedImage| i@) =~= Seq::<ImageView>::empty());
}

/// A copy of the photo on screen, with the generation and the queue length.
pub fn rendered_image_snapshot(state: &RenderedImageState) -> (snap: RenderedImageSnapshot)
    ensures
        snap.generation == state.generation(),
        snap.buffered == state.images().len(),
        snap.buffered <= BUFFER_CAPACITY,
        state.images().len() == 0 ==> snap.image is None,
        state.images().len() > 0 ==> (snap.image matches Some(img) && img@ == state.images()[0]),
{
    proof {
        use_type_invariant(state);
    }
    let image = if state.buffer.len() > 0 {
        Some(state.buffer[0].duplicate())
    } else {
        None
    };
    RenderedImageSnapshot { image, generation: state.generation, buffered: state.buffer.len() }
}

} // verus!
