use photo_frame::media::{decode_media, present_media, MediaError};
use photo_frame::rendered_image::{rendered_image_snapshot, RenderedImageState};
use std::io::Cursor;

fn png(width: u32, height: u32, colour: [u8; 3]) -> Vec<u8> {
    let image = image::RgbImage::from_pixel(width, height, image::Rgb(colour));
    let mut bytes = Cursor::new(Vec::new());
    image.write_to(&mut bytes, image::ImageFormat::Png).unwrap();
    bytes.into_inner()
}

#[test]
fn a_downloaded_png_becomes_panel_pixels() {
    let image = decode_media(&png(3, 2, [255, 0, 0])).unwrap();
    assert_eq!((image.width(), image.height()), (3, 2));
    assert!(image.rgb565().iter().all(|&px| px == 0xF800));
    let green = decode_media(&png(1, 1, [0, 255, 0])).unwrap();
    assert_eq!(green.rgb565(), &[0x07E0]);
}

#[test]
fn bytes_that_are_not_an_image_are_refused() {
    assert_eq!(decode_media(b"not an image").unwrap_err(), MediaError::Undecodable);
    assert_eq!(decode_media(&[]).unwrap_err(), MediaError::Undecodable);
}

#[test]
fn a_decoded_photo_is_queued_and_a_bad_one_is_not() {
    let mut state = RenderedImageState::new();
    assert!(present_media(&mut state, &png(2, 2, [0, 0, 255])).is_ok());
    assert_eq!(rendered_image_snapshot(&state).buffered, 1);
    assert!(present_media(&mut state, b"garbage").is_err());
    let snap = rendered_image_snapshot(&state);
    assert_eq!(snap.buffered, 1);
    assert_eq!(snap.image.unwrap().rgb565(), &[0x001F; 4]);
}

#[test]
fn queueing_behind_the_visible_photo_keeps_the_generation() {
    let mut state = RenderedImageState::new();
    present_media(&mut state, &png(1, 1, [255, 255, 255])).unwrap();
    assert_eq!(rendered_image_snapshot(&state).generation, 1);
    present_media(&mut state, &png(1, 1, [0, 0, 0])).unwrap();
    assert_eq!(rendered_image_snapshot(&state).generation, 1);
    assert_eq!(rendered_image_snapshot(&state).buffered, 2);
}
