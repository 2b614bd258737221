use photo_frame::fit::{centre_on_black, fit_scaled, FitError, Treatment};
use photo_frame::{PANEL_LOGICAL_HEIGHT as HEIGHT, PANEL_LOGICAL_WIDTH as WIDTH};

fn solid(width: u32, height: u32) -> Vec<u8> {
    [255u8, 0, 0].repeat((width * height) as usize)
}

#[test]
fn letterbox_bars_are_black_and_the_photo_is_centred() {
    // A tall photo contained on the panel leaves bars down the left and right.
    let fitted = fit_scaled(&solid(1000, 2000), 1000, 2000, 400, 800).unwrap();
    assert_eq!(fitted.width(), WIDTH as u32);
    assert_eq!(fitted.height(), HEIGHT as u32);

    let pixels = fitted.rgb565();
    let mid_row = (HEIGHT / 2) * WIDTH;
    assert_eq!(pixels[mid_row], 0, "left edge should be black");
    assert_eq!(pixels[mid_row + WIDTH - 1], 0, "right edge should be black");
    assert_ne!(pixels[mid_row + WIDTH / 2], 0, "centre should be the photo");
    assert_eq!(pixels[mid_row + 439], 0);
    assert_eq!(pixels[mid_row + 440], 0xF800);
    assert_eq!(pixels[mid_row + 839], 0xF800);
    assert_eq!(pixels[mid_row + 840], 0);
}

#[test]
fn a_cropped_photo_leaves_no_black_anywhere() {
    let fitted = fit_scaled(&solid(1600, 1000), 1600, 1000, 1280, 800).unwrap();
    assert!(fitted.rgb565().iter().all(|&px| px != 0), "a crop should cover the whole panel");
}

#[test]
fn an_oversized_photo_is_cropped_from_both_sides() {
    let fitted = fit_scaled(&solid(20, 10), 20, 10, 1400, 800).unwrap();
    assert_eq!(fitted.rgb565().len(), WIDTH * HEIGHT);
    assert!(fitted.rgb565().iter().all(|&px| px == 0xF800));
}

#[test]
fn a_zero_sized_image_is_rejected_rather_than_panicking() {
    assert_eq!(fit_scaled(&[], 0, 0, 1, 1).unwrap_err(), FitError::ZeroSized);
    assert_eq!(fit_scaled(&[], 0, 5, 1, 1).unwrap_err(), FitError::ZeroSized);
}

#[test]
fn centring_a_small_photo_offsets_it_by_half_the_slack() {
    // Two pixels wide, one tall: slack of 1278 columns and 799 rows.
    let canvas = centre_on_black(&[1, 2, 3, 4, 5, 6], 2, 1);
    assert_eq!(canvas.len(), WIDTH * HEIGHT * 3);
    let at = |x: usize, y: usize| &canvas[(y * WIDTH + x) * 3..(y * WIDTH + x) * 3 + 3];
    assert_eq!(at(639, 399), &[1, 2, 3]);
    assert_eq!(at(640, 399), &[4, 5, 6]);
    assert_eq!(at(638, 399), &[0, 0, 0]);
    assert_eq!(at(641, 399), &[0, 0, 0]);
    assert_eq!(at(639, 400), &[0, 0, 0]);
    assert_eq!(canvas.iter().filter(|&&b| b != 0).count(), 6);
}

#[test]
fn centring_a_large_photo_reads_from_its_middle() {
    // Three columns too wide: the crop starts one column in (half of 3,
    // rounded toward zero), so the last two columns are cut.
    let width = 1283u32;
    let mut photo = vec![0u8; (width * 800 * 3) as usize];
    for y in 0..800usize {
        for x in 0..width as usize {
            let base = (y * width as usize + x) * 3;
            photo[base] = (x % 251) as u8;
            photo[base + 1] = (y % 251) as u8;
            photo[base + 2] = 7;
        }
    }
    let canvas = centre_on_black(&photo, width, 800);
    assert_eq!(&canvas[0..3], &[1, 0, 7]);
    let last = ((799 * WIDTH) + 1279) * 3;
    assert_eq!(&canvas[last..last + 3], &[(1280 % 251) as u8, (799 % 251) as u8, 7]);
}

#[test]
fn treatments_are_distinct() {
    assert_ne!(Treatment::Crop, Treatment::ContainOnBlack);
}
