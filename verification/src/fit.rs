//! Fitting a photo of any shape to the panel.
//!
//! Photos copied straight onto the SD card arrive in whatever shape the camera
//! produced. They are either cropped (when already close to the panel's shape)
//! or contained on black (when not, so a portrait photo is never cut through
//! the middle). Choosing the treatment and the scaled size is floating-point
//! work done by the caller; this module resizes to that size and centres the
//! result on a black panel-sized canvas, cropping whatever overflows.

use vstd::prelude::*;
use crate::{PANEL_LOGICAL_HEIGHT, PANEL_LOGICAL_WIDTH};
use crate::rendered_image::{ImageView, PixelError, RenderedImage, rgb8_pixels};

verus! {

/// How a photo was fitted.
#[derive(Clone, Copy, Debug, PartialEq, Eq)]
pub enum Treatment {
    /// Scaled to cover the panel, with the overflow cropped off.
    Crop,
    /// Scaled to fit inside the panel, centred on black.
    ContainOnBlack,
}

/// Half of `d`, rounded toward zero.
pub open spec fn half_toward_zero(d: int) -> int {
    if d >= 0 {
        d / 2
    } else {
        -((-d) / 2)
    }
}

/// Where a scaled photo of `scaled` pixels starts along a panel axis of
/// `target` pixels when centred: negative when the photo overflows.
pub open spec fn centre_offset(target: int, scaled: int) -> int {
    half_toward_zero(target - scaled)
}

/// Channel `c` of the panel pixel at column `x`, row `y`, once the
/// `sw x sh` RGB photo `scaled` is centred on black.
pub open spec fn centred_channel(scaled: Seq<u8>, sw: int, sh: int, x: int, y: int, c: int) -> u8 {
    let sx = x - centre_offset(PANEL_LOGICAL_WIDTH as int, sw);
    let sy = y - centre_offset(PANEL_LOGICAL_HEIGHT as int, sh);
    if 0 <= sx < sw && 0 <= sy < sh {
        scaled[(sy * sw + sx) * 3 + c]
    } else {
        0
    }
}

/// The panel-sized RGB canvas holding `scaled` centred on black.
pub open spec fn centred_canvas(scaled: Seq<u8>, sw: int, sh: int) -> Seq<u8> {
    Seq::new(
        (PANEL_LOGICAL_WIDTH * PANEL_LOGICAL_HEIGHT * 3) as nat,
        |i: int|
            centred_channel(
                scaled,
                sw,
                sh,
                (i / 3) % (PANEL_LOGICAL_WIDTH as int),
                (i / 3) / (PANEL_LOGICAL_WIDTH as int),
                i % 3,
            ),
    )
}

/// A photo no wider than the panel leaves black bars of equal width (to
/// within a pixel) down both sides: every column left of its first column,
/// and every column right of its last, is black.
pub proof fn lemma_letterbox_bars_are_black(scaled: Seq<u8>, sw: int, sh: int, x: int, y: int, c: int)
    requires
        0 <= sw <= PANEL_LOGICAL_WIDTH,
        0 <= x < PANEL_LOGICAL_WIDTH,
        x < (PANEL_LOGICAL_WIDTH - sw) / 2 || x >= (PANEL_LOGICAL_WIDTH - sw) / 2 + sw,
    ensures
        centred_channel(scaled, sw, sh, x, y, c) == 0,
{
}

/// A photo covering the panel in both directions leaves no black: every
/// panel pixel is read from the photo, from a window centred on it.
pub proof fn lemma_crop_covers_the_panel(sw: int, sh: int, x: int, y: int)
    requires
        sw >= PANEL_LOGICAL_WIDTH,
        sh >= PANEL_LOGICAL_HEIGHT,
        0 <= x < PANEL_LOGICAL_WIDTH,
        0 <= y < PANEL_LOGICAL_HEIGHT,
    ensures
        0 <= x - centre_offset(PANEL_LOGICAL_WIDTH as int, sw) < sw,
        0 <= y - centre_offset(PANEL_LOGICAL_HEIGHT as int, sh) < sh,
        x - centre_offset(PANEL_LOGICAL_WIDTH as int, sw) == x + (sw - PANEL_LOGICAL_WIDTH) / 2,
{
}

proof fn lemma_source_index(sx: int, sy: int, sw: int, sh: int)
    requires
        0 <= sx < sw,
        0 <= sy < sh,
    ensures
        0 <= (sy * sw + sx) * 3,
        (sy * sw + sx) * 3 + 2 < sw * sh * 3,
{
    assert(sy * sw + sx < sw * sh) by (nonlinear_arith)
        requires
            0 <= sx < sw,
            0 <= sy < sh,
    ;
    assert(0 <= sy * sw) by (nonlinear_arith)
        requires
            0 <= sy,
            0 <= sx < sw,
    ;
}

/// Centres an already-scaled `scaled_w x scaled_h` RGB photo on a black
/// panel-sized canvas. A photo larger than the panel along an axis has the
/// overflow cropped equally from both sides; a smaller one leaves equal black
/// bars.
pub fn centre_on_black(scaled: &[u8], scaled_w: u32, scaled_h: u32) -> (canvas: Vec<u8>)
    requires
        scaled@.len() == scaled_w as int * scaled_h as int * 3,
    ensures
        canvas@ == centred_canvas(scaled@, scaled_w as int, scaled_h as int),
{
    let ghost sw = scaled_w as int;
    let ghost sh = scaled_h as int;
    let width: usize = PANEL_LOGICAL_WIDTH;
    let height: usize = PANEL_LOGICAL_HEIGHT;
    let total: usize = width * height * 3;
    let mut canvas: Vec<u8> = vec![0u8; total];
    // Offsets as a non-negative amount to skip on one side: `write_*` into
    // the canvas when the photo is smaller, `read_*` into the photo when larger.
    let (write_x, read_x): (u32, u32) = if scaled_w <= 1280 {
        ((1280 - scaled_w) / 2, 0)
    } else {
        (0, (scaled_w - 1280) / 2)
    };
    let (write_y, read_y): (u32, u32) = if scaled_h <= 800 {
        ((800 - scaled_h) / 2, 0)
    } else {
        (0, (scaled_h - 800) / 2)
    };
    assert(centre_offset(1280, sw) == write_x - read_x);
    assert(centre_offset(800, sh) == write_y - read_y);

    let mut y: usize = 0;
    while y < height
        invariant
            width == 1280,
            height == 800,
            total == width * height * 3,
            canvas@.len() == total,
            scaled@.len() == sw * sh * 3,
            sw == scaled_w,
            sh == scaled_h,
            centre_offset(1280, sw) == write_x - read_x,
            centre_offset(800, sh) == write_y - read_y,
            y <= height,
            forall|px: int, py: int, c: int|
                0 <= px < 1280 && 0 <= py < y && 0 <= c < 3 ==> #[trigger] canvas@[(py * 1280 + px)
                    * 3 + c] == centred_channel(scaled@, sw, sh, px, py, c),
            forall|i: int| (y * 1280) * 3 <= i < total ==> #[trigger] canvas@[i] == 0,
        decreases height - y,
    {
        let mut x: usize = 0;
        while x < width
            invariant
                width == 1280,
                height == 800,
                total == width * height * 3,
                canvas@.len() == total,
                scaled@.len() == sw * sh * 3,
                sw == scaled_w,
                sh == scaled_h,
                centre_offset(1280, sw) == write_x - read_x,
                centre_offset(800, sh) == write_y - read_y,
                y < height,
                x <= width,
                forall|px: int, py: int, c: int|
                    0 <= px < 1280 && 0 <= py < y && 0 <= c < 3 ==> #[trigger] canvas@[(py * 1280
                        + px) * 3 + c] == centred_channel(scaled@, sw, sh, px, py, c),
                forall|px: int, c: int|
                    0 <= px < x && 0 <= c < 3 ==> #[trigger] canvas@[(y * 1280 + px) * 3 + c]
                        == centred_channel(scaled@, sw, sh, px, y as int, c),
                forall|i: int| (y * 1280 + x) * 3 <= i < total ==> #[trigger] canvas@[i] == 0,
            decreases width - x,
        {
            let base: usize = (y * 1280 + x) * 3;
            let ghost old_canvas = canvas@;
            let inside: bool = x as u64 + read_x as u64 >= write_x as u64 && y as u64 + read_y as u64
                >= write_y as u64 && ((x as u64 + read_x as u64) - write_x as u64) < scaled_w as u64
                && ((y as u64 + read_y as u64) - write_y as u64) < scaled_h as u64;
            if inside {
                let sx: u64 = (x as u64 + read_x as u64) - write_x as u64;
                let sy: u64 = (y as u64 + read_y as u64) - write_y as u64;
                let slen: usize = scaled.len();
                proof {
                    lemma_source_index(sx as int, sy as int, sw, sh);
                    assert(sy * scaled_w <= sy * scaled_w + sx);
                }
                let src: usize = ((sy * scaled_w as u64 + sx) * 3) as usize;
                canvas.set(base, scaled[src]);
                canvas.set(base + 1, scaled[src + 1]);
                canvas.set(base + 2, scaled[src + 2]);
            }
            proof {
                assert forall|c: int| 0 <= c < 3 implies #[trigger] canvas@[(y * 1280 + x) * 3 + c]
                    == centred_channel(scaled@, sw, sh, x as int, y as int, c) by {
                    assert(old_canvas[(y * 1280 + x) * 3 + c] == 0);
                }
                assert forall|px: int, py: int, c: int|
                    0 <= px < 1280 && 0 <= py < y && 0 <= c < 3 implies #[trigger] canvas@[(py * 1280
                        + px) * 3 + c] == centred_channel(scaled@, sw, sh, px, py, c) by {
                    assert(old_canvas[(py * 1280 + px) * 3 + c] == centred_channel(
                        scaled@,
                        sw,
                        sh,
                        px,
                        py,
                        c,
                    ));
                }
                assert forall|px: int, c: int| 0 <= px < x + 1 && 0 <= c < 3 implies #[trigger] canvas@[(
                y * 1280 + px) * 3 + c] == centred_channel(scaled@, sw, sh, px, y as int, c) by {
                    if px < x {
                        assert(old_canvas[(y * 1280 + px) * 3 + c] == centred_channel(
                            scaled@,
                            sw,
                            sh,
                            px,
                            y as int,
                            c,
                        ));
                    }
                }
                assert forall|i: int| (y * 1280 + x + 1) * 3 <= i < total implies #[trigger] canvas@[i]
                    == 0 by {
                    assert(old_canvas[i] == 0);
                }
            }
            x = x + 1;
        }
        y = y + 1;
    }
    proof {
        assert forall|i: int| 0 <= i < canvas@.len() implies #[trigger] canvas@[i] == centred_canvas(
            scaled@,
            sw,
            sh,
        )[i] by {
            let p = i / 3;
            let c = i % 3;
            let px = p % 1280;
            let py = p / 1280;
            assert(p == py * 1280 + px);
            assert(i == p * 3 + c);
            assert(canvas@[(py * 1280 + px) * 3 + c] == centred_channel(scaled@, sw, sh, px, py, c));
        }
        assert(canvas@ =~= centred_canvas(scaled@, sw, sh));
    }
    canvas
}

/// What `image::imageops::resize` with the triangle filter gives when the
/// `width x height` 8-bit RGB image `pixels` is resampled to
/// `new_width x new_height`, as raw RGB bytes.
pub uninterp spec fn resized_rgb8(
    pixels: Seq<u8>,
    width: u32,
    height: u32,
    new_width: u32,
    new_height: u32,
) -> Seq<u8>;

/// `image::imageops::resize` with `FilterType::Triangle` on an 8-bit RGB
/// image given as raw bytes. The result is a fresh buffer of exactly
/// `new_width x new_height` pixels; what the pixels hold is named
/// `resized_rgb8` and depends on the arguments alone. `RgbImage::from_raw`
/// refuses only a buffer shorter than its geometry, which `requires` rules
/// out, so its `None` arm is never taken.
#[verifier::external_body]
fn resize_rgb8(pixels: &[u8], width: u32, height: u32, new_width: u32, new_height: u32) -> (out:
    Vec<u8>)
    requires
        pixels@.len() == width as int * height as int * 3,
        new_width >= 1,
        new_height >= 1,
        new_width as int * new_height as int * 3 <= usize::MAX,
        width as int * new_height as int * 16 <= usize::MAX,
    ensures
        out@ == resized_rgb8(pixels@, width, height, new_width, new_height),
        out@.len() == new_width as int * new_height as int * 3,
{
    match image::RgbImage::from_raw(width, height, pixels.to_vec()) {
        Some(source) => image::imageops::resize(
            &source,
            new_width,
            new_height,
            image::imageops::FilterType::Triangle,
        ).into_raw(),
        None => Vec::new(),
    }
}

/// Why a photo could not be fitted to the panel.
#[derive(Debug, PartialEq, Eq)]
pub enum FitError {
    /// The photo has no pixels along one axis.
    ZeroSized,
    /// The fitted pixels did not make a panel-sized image.
    Pixels(PixelError),
}

/// The panel image a `src_w x src_h` photo becomes when resized to
/// `scaled_w x scaled_h` and centred on black.
pub open spec fn fitted_view(source: Seq<u8>, src_w: u32, src_h: u32, scaled_w: u32, scaled_h: u32) -> ImageView {
    ImageView {
        width: PANEL_LOGICAL_WIDTH as u32,
        height: PANEL_LOGICAL_HEIGHT as u32,
        pixels: rgb8_pixels(
            centred_canvas(
                resized_rgb8(source, src_w, src_h, scaled_w, scaled_h),
                scaled_w as int,
                scaled_h as int,
            ),
        ),
    }
}

/// Resizes a decoded `src_w x src_h` RGB photo to `scaled_w x scaled_h` (the
/// size its treatment calls for) and centres it on the black panel, cropping
/// any overflow. A photo with a zero dimension is refused.
pub fn fit_scaled(source: &[u8], src_w: u32, src_h: u32, scaled_w: u32, scaled_h: u32) -> (r: Result<
    RenderedImage,
    FitError,
>)
    requires
        source@.len() == src_w as int * src_h as int * 3,
        scaled_w >= 1,
        scaled_h >= 1,
        scaled_w as int * scaled_h as int * 3 <= usize::MAX,
        src_w as int * scaled_h as int * 16 <= usize::MAX,
    ensures
        src_w == 0 || src_h == 0 ==> r == Err::<RenderedImage, _>(FitError::ZeroSized),
        src_w > 0 && src_h > 0 ==> (r matches Ok(img) && img@ == fitted_view(
            source@,
            src_w,
            src_h,
            scaled_w,
            scaled_h,
        )),
{
    if src_w == 0 || src_h == 0 {
        return Err(FitError::ZeroSized);
    }
    let scaled = resize_rgb8(source, src_w, src_h, scaled_w, scaled_h);
    let canvas = centre_on_black(scaled.as_slice(), scaled_w, scaled_h);
    match RenderedImage::from_rgb8(1280, 800, canvas.as_slice()) {
        Ok(img) => Ok(img),
        Err(e) => Err(FitError::Pixels(e)),
    }
}

} // verus!
