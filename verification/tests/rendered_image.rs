use photo_frame::rendered_image::{
    advance_rendered_image, clear_rendered_image, push_rendered_image, rendered_image_snapshot,
    set_rendered_image, PixelError, RenderedImage, RenderedImageState, BUFFER_CAPACITY,
};
use photo_frame::{PANEL_LOGICAL_HEIGHT, PANEL_LOGICAL_WIDTH};

const PIXELS: usize = PANEL_LOGICAL_WIDTH * PANEL_LOGICAL_HEIGHT;

#[test]
fn raw_pixels_are_read_little_endian() {
    // Pure red is 0xF800, sent low byte first.
    let bytes: Vec<u8> = std::iter::repeat([0x00, 0xF8]).take(PIXELS).flatten().collect();
    let image = RenderedImage::from_rgb565_bytes(&bytes).unwrap();

    assert_eq!(image.width(), PANEL_LOGICAL_WIDTH as u32);
    assert_eq!(image.height(), PANEL_LOGICAL_HEIGHT as u32);
    assert!(image.rgb565().iter().all(|&px| px == 0xF800));
}

#[test]
fn a_truncated_download_is_rejected_rather_than_shown() {
    let bytes = vec![0u8; PIXELS];
    assert!(RenderedImage::from_rgb565_bytes(&bytes).is_err());
}

#[test]
fn black_survives_the_round_trip() {
    let bytes = vec![0u8; PIXELS * 2];
    let image = RenderedImage::from_rgb565_bytes(&bytes).unwrap();
    assert!(image.rgb565().iter().all(|&px| px == 0));
}

#[test]
fn the_wrong_length_is_reported_with_both_sizes() {
    let bytes = vec![0u8; 10];
    assert_eq!(
        RenderedImage::from_rgb565_bytes(&bytes).unwrap_err(),
        PixelError::WrongLength { actual: 10, expected: (PIXELS * 2) as u128 }
    );
    assert_eq!(
        RenderedImage::new(2, 2, vec![1, 2, 3]).unwrap_err(),
        PixelError::WrongLength { actual: 3, expected: 4 }
    );
    assert_eq!(
        RenderedImage::from_rgb8(2, 1, &[0, 0, 0, 0]).unwrap_err(),
        PixelError::WrongLength { actual: 4, expected: 6 }
    );
}

#[test]
fn rgb8_is_reduced_to_565() {
    let image = RenderedImage::from_rgb8(3, 1, &[255, 0, 0, 0, 255, 0, 0x12, 0x34, 0x56]).unwrap();
    assert_eq!(image.rgb565(), &[0xF800, 0x07E0, (0x12 >> 3) << 11 | (0x34 >> 2) << 5 | (0x56 >> 3)]);
    assert_eq!((image.width(), image.height()), (3, 1));
    let copy = image.duplicate();
    assert_eq!(copy.rgb565(), image.rgb565());
}

#[test]
fn little_endian_bytes_pair_low_then_high() {
    let mut bytes = vec![0u8; PIXELS * 2];
    bytes[0] = 0x34;
    bytes[1] = 0x12;
    let image = RenderedImage::from_rgb565_bytes(&bytes).unwrap();
    assert_eq!(image.rgb565()[0], 0x1234);
    assert_eq!(image.rgb565()[1], 0);
}

fn tiny(colour: u16) -> RenderedImage {
    RenderedImage::new(1, 1, vec![colour]).unwrap()
}

fn front(state: &RenderedImageState) -> Option<u16> {
    rendered_image_snapshot(state).image.map(|img| img.rgb565()[0])
}

#[test]
fn the_queue_keeps_the_visible_photo_and_drops_the_oldest_waiting_one_when_full() {
    let mut state = RenderedImageState::new();
    assert_eq!(rendered_image_snapshot(&state).generation, 0);
    assert_eq!(front(&state), None);

    push_rendered_image(&mut state, tiny(1));
    assert_eq!(rendered_image_snapshot(&state).generation, 1);
    push_rendered_image(&mut state, tiny(2));
    push_rendered_image(&mut state, tiny(3));
    assert_eq!(rendered_image_snapshot(&state).buffered, BUFFER_CAPACITY);
    assert_eq!(rendered_image_snapshot(&state).generation, 1);

    push_rendered_image(&mut state, tiny(4));
    assert_eq!(rendered_image_snapshot(&state).buffered, 3);
    assert_eq!(front(&state), Some(1));

    assert!(advance_rendered_image(&mut state));
    assert_eq!(front(&state), Some(3));
    assert!(advance_rendered_image(&mut state));
    assert_eq!(front(&state), Some(4));
    assert_eq!(rendered_image_snapshot(&state).generation, 3);
    assert!(!advance_rendered_image(&mut state));
    assert_eq!(front(&state), Some(4));
    assert_eq!(rendered_image_snapshot(&state).generation, 3);
}

#[test]
fn setting_and_clearing_start_a_new_generation() {
    let mut state = RenderedImageState::new();
    push_rendered_image(&mut state, tiny(1));
    push_rendered_image(&mut state, tiny(2));
    set_rendered_image(&mut state, tiny(9));
    let snap = rendered_image_snapshot(&state);
    assert_eq!(snap.buffered, 1);
    assert_eq!(snap.generation, 2);
    assert_eq!(front(&state), Some(9));
    clear_rendered_image(&mut state);
    let snap = rendered_image_snapshot(&state);
    assert_eq!(snap.buffered, 0);
    assert_eq!(snap.generation, 3);
    assert!(snap.image.is_none());
}
