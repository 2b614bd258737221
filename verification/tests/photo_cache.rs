use photo_frame::photo_cache::{
    cache_entries,
    cache_dir, contains, count, has_room, highest_sequence, is_cache_entry, is_complete_photo, next_sequence,
    path_for, photo_id_of, plan_store, wanted, CacheError, StorePlan, PHOTO_BYTES, TARGET_PHOTOS,
};

fn entries(paths: &[&str]) -> Vec<String> {
    paths.iter().map(|p| p.to_string()).collect()
}

#[test]
fn photos_are_stored_under_a_padded_sequence_number() {
    assert_eq!(cache_dir(), "/sdcard/ha");
    assert_eq!(path_for(7, "abc123"), "/sdcard/ha/000000000007-abc123.rgb565");
    assert_eq!(path_for(u64::MAX, "x"), "/sdcard/ha/18446744073709551615-x.rgb565");
}

#[test]
fn the_photo_id_is_read_back_from_the_name() {
    assert_eq!(photo_id_of("/sdcard/ha/000000000007-abc123.rgb565").as_deref(), Some("abc123"));
    assert_eq!(photo_id_of("/sdcard/ha/7-a-b.rgb565").as_deref(), Some("a-b"));
    assert_eq!(photo_id_of("/sdcard/ha/nodash.rgb565"), None);
    assert!(is_cache_entry("/sdcard/ha/000000000007-abc123.rgb565"));
    assert!(!is_cache_entry("/sdcard/ha/000000000007-abc123.rgb565.tmp"));
    assert!(!is_cache_entry("/sdcard/ha/readme"));
}

#[test]
fn numbering_continues_from_the_highest_on_the_card() {
    let card = entries(&[
        "/sdcard/ha/000000000003-a.rgb565",
        "/sdcard/ha/000000000010-b.rgb565",
        "/sdcard/ha/junk.rgb565",
        "/sdcard/ha/000000000002-c.rgb565",
    ]);
    assert_eq!(next_sequence(&card), 11);
    assert_eq!(highest_sequence(&card), Some(10));
    assert_eq!(highest_sequence(&entries(&["/sdcard/ha/x-y.rgb565"])), None);
    assert_eq!(next_sequence(&Vec::new()), 0);
    assert!(contains(&card, "b"));
    assert!(!contains(&card, "d"));
    assert_eq!(count(&card), 4);
}

#[test]
fn the_cache_wants_photos_until_it_holds_its_target() {
    assert_eq!(wanted(0), TARGET_PHOTOS);
    assert_eq!(wanted(TARGET_PHOTOS - 3), 3);
    assert_eq!(wanted(TARGET_PHOTOS + 5), 0);
    assert!(has_room(0, true));
    assert!(!has_room(0, false));
    assert!(!has_room(TARGET_PHOTOS, true));
}

#[test]
fn storing_a_photo_is_planned() {
    let card = entries(&["/sdcard/ha/000000000004-old.rgb565"]);
    assert_eq!(plan_store("new1", 10, &card, true), Err(CacheError::WrongSize(10)));
    assert_eq!(plan_store("bad/id", PHOTO_BYTES, &card, true), Err(CacheError::UnusableName));
    assert_eq!(plan_store("", PHOTO_BYTES, &card, true), Err(CacheError::UnusableName));
    assert_eq!(plan_store("old", PHOTO_BYTES, &card, true), Ok(StorePlan::AlreadyCached));
    assert_eq!(plan_store("new1", PHOTO_BYTES, &card, false), Ok(StorePlan::NoRoom));
    assert_eq!(
        plan_store("new1", PHOTO_BYTES, &card, true),
        Ok(StorePlan::Write("/sdcard/ha/000000000005-new1.rgb565".to_string()))
    );
}

#[test]
fn only_whole_photos_are_shown_from_the_cache() {
    assert_eq!(PHOTO_BYTES, 1280 * 800 * 2);
    assert!(is_complete_photo(PHOTO_BYTES));
    assert!(!is_complete_photo(PHOTO_BYTES - 1));
}

#[test]
fn the_cache_listing_keeps_only_cache_files_oldest_first() {
    let listing = entries(&[
        "/sdcard/ha/000000000010-b.rgb565",
        "/sdcard/ha/000000000002-a.rgb565.part",
        "/sdcard/ha/notes.txt",
        "/sdcard/ha/000000000003-c.rgb565",
    ]);
    assert_eq!(
        cache_entries(listing),
        vec!["/sdcard/ha/000000000003-c.rgb565", "/sdcard/ha/000000000010-b.rgb565"]
    );
}

#[test]
fn trailing_separators_do_not_hide_a_cache_file() {
    assert!(is_cache_entry("/sdcard/ha/000000000007-abc123.rgb565/"));
    assert_eq!(photo_id_of("/sdcard/ha/000000000007-abc123.rgb565/.").as_deref(), Some("abc123"));
}
