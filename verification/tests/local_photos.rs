use photo_frame::local_photos::{
    index_local_photos, is_readme, is_supported, DirEntry, LocalLibrary, SlideshowCursor,
    SlideshowPause, MAX_PHOTOS,
};
use photo_frame::sorting::sort_paths;

#[test]
fn recognises_photo_extensions_regardless_of_case() {
    assert!(is_supported("/m/a.JPG"));
    assert!(is_supported("/m/b.jpeg"));
    assert!(is_supported("/m/c.PnG"));
    assert!(!is_supported("/m/d.heic"));
    assert!(!is_supported("/m/e"));
}

#[test]
fn our_own_note_is_not_counted_as_an_unreadable_photo() {
    assert!(is_readme("/m/READ ME.txt"));
    assert!(!is_readme("/m/holiday.heic"));
}

#[test]
fn an_empty_library_reports_plainly() {
    assert_eq!(LocalLibrary::default().summary(), "no photos on card");
}

#[test]
fn unreadable_files_are_reported_so_a_folder_of_heic_is_explicable() {
    let library = LocalLibrary { photos: vec![], skipped: 200 };
    assert_eq!(library.summary(), "200 file(s) on card, none readable");
}

fn file(path: &str) -> DirEntry {
    DirEntry { path: path.to_string(), is_file: true }
}

#[test]
fn photos_are_ordered_predictably_so_naming_files_controls_the_order() {
    let dir = "/sdcard/media";
    let library = index_local_photos(
        ["3-third.jpg", "1-first.jpg", "2-second.jpg"]
            .iter()
            .map(|name| file(&format!("{dir}/{name}")))
            .collect(),
    );
    let names: Vec<&str> = library.photos.iter().map(|p| p.rsplit('/').next().unwrap()).collect();
    assert_eq!(names, ["1-first.jpg", "2-second.jpg", "3-third.jpg"]);
}

#[test]
fn only_files_count_and_notes_are_not_unreadable() {
    let library = index_local_photos(vec![
        file("/m/holiday.jpg"),
        file("/m/from-iphone.HEIC"),
        file("/m/READ ME.txt"),
        DirEntry { path: "/m/album.jpg".to_string(), is_file: false },
    ]);
    assert_eq!(library.len(), 1, "only the JPEG is a usable photo");
    assert_eq!(library.skipped(), 1, "the HEIC counts, the note does not");
    assert_eq!(library.summary(), "1 photo(s) on card, 1 unreadable");
    assert!(!library.is_empty());
}

#[test]
fn summaries_cover_every_case() {
    let two = LocalLibrary { photos: vec!["/m/a.jpg".to_string(), "/m/b.png".to_string()], skipped: 0 };
    assert_eq!(two.summary(), "2 photo(s) on card");
    let mixed = LocalLibrary { photos: vec!["/m/a.jpg".to_string()], skipped: 12 };
    assert_eq!(mixed.summary(), "1 photo(s) on card, 12 unreadable");
}

#[test]
fn indexing_stops_at_the_cap_in_listing_order() {
    let mut entries: Vec<DirEntry> = (0..MAX_PHOTOS).map(|i| file(&format!("/m/{:05}.jpg", i + 1))).collect();
    entries.push(file("/m/00000.jpg"));
    entries.push(file("/m/z.bmp"));
    let library = index_local_photos(entries);
    assert_eq!(library.len(), MAX_PHOTOS);
    assert_eq!(library.skipped, 1);
    assert_eq!(library.photos[0], "/m/00001.jpg");
    assert_eq!(library.photos[MAX_PHOTOS - 1], format!("/m/{:05}.jpg", MAX_PHOTOS));
}

#[test]
fn sorting_is_by_code_point_with_prefixes_first() {
    let sorted = sort_paths(vec![
        "/m/b.jpg".to_string(),
        "/m/B.jpg".to_string(),
        "/m/a.jpg".to_string(),
        "/m/a.jpg.png".to_string(),
        "/m/a.jpg".to_string(),
        "/m/é.jpg".to_string(),
    ]);
    assert_eq!(
        sorted,
        vec!["/m/B.jpg", "/m/a.jpg", "/m/a.jpg", "/m/a.jpg.png", "/m/b.jpg", "/m/é.jpg"]
    );
    assert!(sort_paths(vec![]).is_empty());
}

#[test]
fn the_slideshow_cycles_and_backs_off_when_every_photo_fails() {
    let mut cursor = SlideshowCursor::new();
    let order: Vec<usize> = (0..5).map(|_| cursor.next_photo(3)).collect();
    assert_eq!(order, vec![0, 1, 2, 0, 1]);

    assert_eq!(cursor.failed(3), SlideshowPause::Skip);
    assert_eq!(cursor.failed(3), SlideshowPause::Skip);
    assert_eq!(cursor.failed(3), SlideshowPause::BackOff);
    assert_eq!(cursor.consecutive_failures, 0);

    assert_eq!(cursor.failed(3), SlideshowPause::Skip);
    assert_eq!(cursor.loaded(), SlideshowPause::Rotate);
    assert_eq!(cursor.consecutive_failures, 0);
    assert_eq!(cursor.failed(1), SlideshowPause::BackOff);
}

#[test]
fn trailing_separators_and_dot_components_are_read_as_paths_are() {
    assert!(is_supported("/m/a.jpg/"));
    assert!(is_supported("/m/a.jpg/."));
    assert!(is_supported("/m/a.PNG//./"));
    assert!(!is_supported("/m/."));
    assert!(!is_supported("."));
    assert!(!is_supported("/m/a.jpg/.."));
    assert!(is_readme("/m/READ ME.txt/"));
    assert!(!is_supported("/m/.jpg"));
    assert!(is_supported("a.jpg"));
}
