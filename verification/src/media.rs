//! Turning downloaded photo bytes into a queued, panel-ready image.

use vstd::prelude::*;
use crate::rendered_image::{
    PixelError, ImageView, RenderedImage, RenderedImageState, pushed, push_rendered_image,
    rgb8_pixels,
};

verus! {

#[verifier::external_type_specification]
#[verifier::external_body]
pub struct ExImageDecodeError(image::ImageError);

/// What `image::load_from_memory` followed by conversion to 8-bit RGB gives
/// for these bytes: width, height and the RGB bytes, or `None` when the
/// bytes are not an image it can decode.
pub uninterp spec fn decoded_rgb8(bytes: Seq<u8>) -> Option<(u32, u32, Seq<u8>)>;

/// `image::load_from_memory`, converted to 8-bit RGB and taken apart into
/// width, height and raw bytes. The format is guessed from the bytes; the
/// result depends on the bytes alone and is named `decoded_rgb8`.
#[verifier::external_body]
fn decode_rgb8(bytes: &[u8]) -> (r: Result<(u32, u32, Vec<u8>), image::ImageError>)
    ensures
        match decoded_rgb8(bytes@) {
            None => r is Err,
            Some((w, h, px)) => r matches Ok((w2, h2, v)) && w2 == w && h2 == h && v@ == px,
        },
{
    match image::load_from_memory(bytes) {
        Ok(img) => {
            let rgb = img.into_rgb8();
            let (w, h) = rgb.dimensions();
            Ok((w, h, rgb.into_raw()))
        },
        Err(e) => Err(e),
    }
}

/// Why a downloaded photo could not be shown.
#[derive(Debug, PartialEq, Eq)]
pub enum MediaError {
    /// The bytes are not an image the decoder understands.
    Undecodable,
    /// The decoder's pixels do not fit its own geometry.
    Pixels(PixelError),
}

/// The image a decode result becomes, as a view, or `None` when it is not one.
pub open spec fn media_image(d: Option<(u32, u32, Seq<u8>)>) -> Option<ImageView> {
    match d {
        None => None,
        Some((w, h, px)) => if px.len() == w as int * h as int * 3 {
            Some(ImageView { width: w, height: h, pixels: rgb8_pixels(px) })
        } else {
            None
        },
    }
}

/// Decodes a downloaded photo into panel pixels.
pub fn decode_media(bytes: &[u8]) -> (r: Result<RenderedImage, MediaError>)
    ensures
        match media_image(decoded_rgb8(bytes@)) {
            Some(v) => r matches Ok(img) && img@ == v,
            None => r is Err,
        },
        decoded_rgb8(bytes@) is None ==> r == Err::<RenderedImage, _>(MediaError::Undecodable),
{
    match decode_rgb8(bytes) {
        Err(_) => Err(MediaError::Undecodable),
        Ok((w, h, px)) => match RenderedImage::from_rgb8(w, h, px.as_slice()) {
            Ok(img) => Ok(img),
            Err(e) => Err(MediaError::Pixels(e)),
        },
    }
}

/// Decodes a downloaded photo and queues it behind the one on screen, so a
/// transition never waits on a decode. Nothing is queued when decoding fails.
pub fn present_media(state: &mut RenderedImageState, bytes: &[u8]) -> (r: Result<(), MediaError>)
    ensures
        final(state).well_formed(),
        match media_image(decoded_rgb8(bytes@)) {
            Some(v) => r is Ok && final(state).images() == pushed(old(state).images(), v)
                && final(state).generation() == if old(state).images().len() == 0 {
                old(state).generation().wrapping_add(1)
            } else {
                old(state).generation()
            },
            None => r is Err && final(state).images() == old(state).images()
                && final(state).generation() == old(state).generation(),
        },
{
    proof {
        use_type_invariant(&*state);
    }
    let img = decode_media(bytes)?;
    push_rendered_image(state, img);
    Ok(())
}

} // verus!
