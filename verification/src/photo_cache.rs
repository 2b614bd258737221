//! The photo cache on the SD card: how cached photos are named, which ones
//! are there, and whether another should be written.
//!
//! Photos are files named `<order>-<photo id>.rgb565`; the order is a
//! zero-padded sequence number, so names sort in arrival order.

use vstd::prelude::*;
use crate::sorting::{path_le, path_views, sort_paths};
use crate::paths::{extension, extension_start, find_first, first_index, stem, stem_range};
use crate::text::{chars_of, owned, push_str, push_zero_padded, str_eq, string_from_range, zero_padded};
use crate::{PANEL_LOGICAL_HEIGHT, PANEL_LOGICAL_WIDTH};

verus! {

/// Bytes in one cached photo: the panel's pixels in RGB565.
pub const PHOTO_BYTES: usize = PANEL_LOGICAL_WIDTH * PANEL_LOGICAL_HEIGHT * 2;

/// How many photos to keep on the card.
pub const TARGET_PHOTOS: usize = 48;

/// The cache's folder on the card.
pub fn cache_dir() -> (d: &'static str)
    ensures
        d@ == "/sdcard/ha"@,
{
    "/sdcard/ha"
}

/// The path a photo is cached under.
pub open spec fn cache_path(sequence: u64, photo_id: Seq<char>) -> Seq<char> {
    "/sdcard/ha/"@ + zero_padded(sequence as nat, 12) + "-"@ + photo_id + ".rgb565"@
}

/// The path for the photo `photo_id` arriving as number `sequence`.
pub fn path_for(sequence: u64, photo_id: &str) -> (p: String)
    ensures
        p@ == cache_path(sequence, photo_id@),
{
    let mut p = owned("/sdcard/ha/");
    push_zero_padded(&mut p, sequence, 12);
    push_str(&mut p, "-");
    push_str(&mut p, photo_id);
    push_str(&mut p, ".rgb565");
    p
}

/// A cache file's stem split at its first `-`: the order and the photo id.
pub open spec fn split_stem(p: Seq<char>) -> Option<(Seq<char>, Seq<char>)> {
    match stem(p) {
        None => None,
        Some(st) => {
            let k = first_index(st, '-');
            if k < st.len() {
                Some((st.subrange(0, k), st.subrange(k + 1, st.len() as int)))
            } else {
                None
            }
        },
    }
}

/// Where `split_stem` splits, as positions in the path.
fn stem_split(cs: &Vec<char>) -> (r: Option<(usize, usize, usize)>)
    requires
        cs@.len() < 0x7fff_ffff_ffff_ffff,
    ensures
        match split_stem(cs@) {
            None => r is None,
            Some((order, id)) => r matches Some((a, k, b)) && a <= k < b <= cs@.len() && order
                == cs@.subrange(a as int, k as int) && id == cs@.subrange(k + 1, b as int),
        },
{
    match stem_range(cs) {
        None => None,
        Some((a, b)) => {
            let k = find_first(cs, a, b, '-');
            if k < b {
                let ghost st = cs@.subrange(a as int, b as int);
                assert(st.subrange(0, k - a) =~= cs@.subrange(a as int, k as int));
                assert(st.subrange(k - a + 1, st.len() as int) =~= cs@.subrange(k + 1, b as int));
                Some((a, k, b))
            } else {
                None
            }
        },
    }
}

/// The photo id a cache path carries, if any.
pub fn photo_id_of(path: &str) -> (id: Option<String>)
    requires
        path@.len() < 0x7fff_ffff_ffff_ffff,
    ensures
        match split_stem(path@) {
            None => id is None,
            Some((_, pid)) => id matches Some(s) && s@ == pid,
        },
{
    let cs = chars_of(path);
    match stem_split(&cs) {
        None => None,
        Some((_, k, b)) => Some(string_from_range(&cs, k + 1, b)),
    }
}

/// The value of a run of ASCII digits.
pub open spec fn digits_value(s: Seq<char>) -> nat
    decreases s.len(),
{
    if s.len() == 0 {
        0
    } else {
        digits_value(s.drop_last()) * 10 + ((s.last() as u32) - 48) as nat
    }
}

pub open spec fn all_digits(s: Seq<char>) -> bool {
    forall|i: int| 0 <= i < s.len() ==> '0' <= #[trigger] s[i] <= '9'
}

/// An unsigned 64-bit number as text: an optional `+`, then at least one
/// ASCII digit, with a value that fits.
pub open spec fn parsed_u64(s: Seq<char>) -> Option<u64> {
    let d = if s.len() > 0 && s[0] == '+' { s.drop_first() } else { s };
    if d.len() > 0 && all_digits(d) && digits_value(d) <= u64::MAX {
        Some(digits_value(d) as u64)
    } else {
        None
    }
}

proof fn lemma_digits_value_grows(s: Seq<char>, i: int)
    requires
        all_digits(s),
        0 <= i <= s.len(),
    ensures
        digits_value(s.subrange(0, i)) <= digits_value(s),
    decreases s.len() - i,
{
    if i < s.len() {
        lemma_digits_value_grows(s, i + 1);
        assert(s.subrange(0, i + 1).drop_last() =~= s.subrange(0, i));
    } else {
        assert(s.subrange(0, i) =~= s);
    }
}

/// Parses `cs[from..to]` as an unsigned 64-bit number.
fn parse_u64_range(cs: &Vec<char>, from: usize, to: usize) -> (v: Option<u64>)
    requires
        from <= to <= cs@.len(),
    ensures
        v == parsed_u64(cs@.subrange(from as int, to as int)),
{
    let ghost s = cs@.subrange(from as int, to as int);
    let mut start = from;
    if start < to && cs[start] == '+' {
        start = start + 1;
    }
    let ghost d = cs@.subrange(start as int, to as int);
    assert(d == if s.len() > 0 && s[0] == '+' { s.drop_first() } else { s });
    if start == to {
        return None;
    }
    let mut value: u64 = 0;
    let mut i = start;
    while i < to
        invariant
            from <= start <= i <= to,
            start < to,
            to <= cs@.len(),
            s == cs@.subrange(from as int, to as int),
            d == (if s.len() > 0 && s[0] == '+' { s.drop_first() } else { s }),
            d == cs@.subrange(start as int, to as int),
            all_digits(cs@.subrange(start as int, i as int)),
            value == digits_value(cs@.subrange(start as int, i as int)),
        decreases to - i,
    {
        let c = cs[i];
        let ghost prefix = cs@.subrange(start as int, i + 1);
        assert(prefix.drop_last() =~= cs@.subrange(start as int, i as int));
        if !('0' <= c && c <= '9') {
            assert(!all_digits(d)) by {
                assert(d[i - start] == c);
            }
            return None;
        }
        let digit = (c as u32 - 48) as u64;
        if value > (u64::MAX - digit) / 10 {
            proof {
                assert(all_digits(prefix));
                assert(digits_value(prefix) > u64::MAX) by (nonlinear_arith)
                    requires
                        digits_value(prefix) == value * 10 + digit,
                        value > (u64::MAX - digit) / 10,
                        digit <= 9,
                ;
                if all_digits(d) {
                    assert(prefix == d.subrange(0, i + 1 - start));
                    lemma_digits_value_grows(d, i + 1 - start);
                }
            }
            return None;
        }
        assert(value * 10 + digit <= u64::MAX) by (nonlinear_arith)
            requires
                value <= (u64::MAX - digit) / 10,
                digit <= 9,
        ;
        value = value * 10 + digit;
        i = i + 1;
        assert(all_digits(cs@.subrange(start as int, i as int))) by {
            assert forall|j: int| 0 <= j < i - start implies '0' <= #[trigger] cs@.subrange(
                start as int,
                i as int,
            )[j] <= '9' by {
                if j < i - 1 - start {
                    assert(cs@.subrange(start as int, i as int)[j] == cs@.subrange(
                        start as int,
                        i - 1,
                    )[j]);
                }
            }
        }
    }
    assert(cs@.subrange(start as int, i as int) =~= d);
    Some(value)
}

/// A cache entry's order number, if its name has one.
pub open spec fn order_of(p: Seq<char>) -> Option<u64> {
    match split_stem(p) {
        Some((order, _)) => parsed_u64(order),
        None => None,
    }
}

/// A cached photo file: one whose extension is exactly `rgb565`.
pub open spec fn is_cache_file(p: Seq<char>) -> bool {
    extension(p) == Some("rgb565"@)
}

/// Paths the cache handles.
pub open spec fn sane(paths: Seq<String>) -> bool {
    forall|i: int| 0 <= i < paths.len() ==> (#[trigger] paths[i])@.len() < 0x7fff_ffff_ffff_ffff
}

/// Whether a path is a cached photo.
pub fn is_cache_entry(path: &str) -> (r: bool)
    requires
        path@.len() < 0x7fff_ffff_ffff_ffff,
    ensures
        r == is_cache_file(path@),
{
    let cs = chars_of(path);
    match extension_start(&cs) {
        None => false,
        Some((k, m)) => {
            let ext = string_from_range(&cs, k, m);
            let r = str_eq(ext.as_str(), "rgb565");
            r
        },
    }
}

/// The cache files among the names a directory listing gave, in listing order.
pub open spec fn cache_files(listing: Seq<String>) -> Seq<String>
    decreases listing.len(),
{
    if listing.len() == 0 {
        Seq::empty()
    } else {
        let rest = cache_files(listing.drop_last());
        if is_cache_file(listing.last()@) {
            rest.push(listing.last())
        } else {
            rest
        }
    }
}

/// The cached photos in a listing of the cache folder, oldest first: only
/// names with the `rgb565` extension count, and as names start with their
/// zero-padded order number, name order is arrival order.
pub fn cache_entries(listing: Vec<String>) -> (entries: Vec<String>)
    requires
        sane(listing@),
    ensures
        path_views(entries@) == path_views(cache_files(listing@)).sort_by(
            |a: Seq<char>, b: Seq<char>| path_le(a, b),
        ),
{
    let mut found: Vec<String> = Vec::new();
    let mut i: usize = 0;
    while i < listing.len()
        invariant
            i <= listing@.len(),
            sane(listing@),
            found@ == cache_files(listing@.subrange(0, i as int)),
        decreases listing.len() - i,
    {
        let p = &listing[i];
        assert(p@.len() < 0x7fff_ffff_ffff_ffff);
        assert(listing@.subrange(0, i + 1).drop_last() =~= listing@.subrange(0, i as int));
        if is_cache_entry(p.as_str()) {
            found.push(p.clone());
        }
        i = i + 1;
    }
    assert(listing@.subrange(0, listing@.len() as int) =~= listing@);
    sort_paths(found)
}

/// Whether a cache path carries this photo id.
pub open spec fn carries_id(p: Seq<char>, photo_id: Seq<char>) -> bool {
    split_stem(p) matches Some((_, id)) && id == photo_id
}

/// Whether some entry carries this photo id.
pub open spec fn cached(entries: Seq<String>, photo_id: Seq<char>) -> bool {
    exists|i: int| 0 <= i < entries.len() && carries_id(#[trigger] entries[i]@, photo_id)
}

/// Whether this exact photo is already on the card.
pub fn contains(entries: &Vec<String>, photo_id: &str) -> (r: bool)
    requires
        sane(entries@),
    ensures
        r == cached(entries@, photo_id@),
{
    let mut i: usize = 0;
    while i < entries.len()
        invariant
            i <= entries@.len(),
            sane(entries@),
            forall|j: int| 0 <= j < i ==> !carries_id(#[trigger] entries@[j]@, photo_id@),
        decreases entries.len() - i,
    {
        let p = &entries[i];
        assert(p@.len() < 0x7fff_ffff_ffff_ffff);
        match photo_id_of(p.as_str()) {
            Some(id) => {
                if str_eq(id.as_str(), photo_id) {
                    return true;
                }
            },
            None => {},
        }
        i = i + 1;
    }
    false
}

/// The highest order number among the entries, if any has one.
pub open spec fn highest_order(entries: Seq<String>) -> Option<u64>
    decreases entries.len(),
{
    if entries.len() == 0 {
        None
    } else {
        let rest = highest_order(entries.drop_last());
        match order_of(entries.last()@) {
            None => rest,
            Some(o) => match rest {
                None => Some(o),
                Some(r) => if o > r { Some(o) } else { Some(r) },
            },
        }
    }
}

/// The highest order number among the cache entries, if any has one.
pub fn highest_sequence(entries: &Vec<String>) -> (h: Option<u64>)
    requires
        sane(entries@),
    ensures
        h == highest_order(entries@),
{
    let mut best: Option<u64> = None;
    let mut i: usize = 0;
    while i < entries.len()
        invariant
            i <= entries@.len(),
            sane(entries@),
            best == highest_order(entries@.subrange(0, i as int)),
        decreases entries.len() - i,
    {
        let p = &entries[i];
        assert(p@.len() < 0x7fff_ffff_ffff_ffff);
        let cs = chars_of(p.as_str());
        let order = match stem_split(&cs) {
            None => None,
            Some((a, k, _)) => parse_u64_range(&cs, a, k),
        };
        assert(order == order_of(entries@[i as int]@));
        best = match order {
            None => best,
            Some(o) => match best {
                None => Some(o),
                Some(r) => if o > r { Some(o) } else { Some(r) },
            },
        };
        assert(entries@.subrange(0, i + 1).drop_last() =~= entries@.subrange(0, i as int));
        i = i + 1;
    }
    assert(entries@.subrange(0, entries@.len() as int) =~= entries@);
    best
}

/// The order number for the next photo written: one past the highest on the
/// card, or zero on an empty card. Derived from the card, so numbering
/// survives a reboot.
pub fn next_sequence(entries: &Vec<String>) -> (n: u64)
    requires
        sane(entries@),
        highest_order(entries@) != Some(u64::MAX),
    ensures
        n == match highest_order(entries@) {
            None => 0,
            Some(h) => h + 1,
        },
{
    match highest_sequence(entries) {
        None => 0,
        Some(h) => h + 1,
    }
}

/// How many photos are waiting on the card.
pub fn count(entries: &Vec<String>) -> (n: usize)
    ensures
        n == entries@.len(),
{
    entries.len()
}

/// How many more photos the frame would like: zero once the cache is full.
pub fn wanted(count: usize) -> (n: usize)
    ensures
        n == if count < TARGET_PHOTOS { TARGET_PHOTOS - count } else { 0 },
{
    TARGET_PHOTOS.saturating_sub(count)
}

/// Whether there is room for another photo: fewer than the target on the
/// card, and the card's own headroom not used up (`card_has_space`, true
/// when the card cannot say).
pub fn has_room(count: usize, card_has_space: bool) -> (r: bool)
    ensures
        r == (count < TARGET_PHOTOS && card_has_space),
{
    if count >= TARGET_PHOTOS {
        return false;
    }
    card_has_space
}

/// Why a photo was not cached.
#[derive(Debug, PartialEq, Eq)]
pub enum CacheError {
    /// The pixel data is not exactly one photo.
    WrongSize(usize),
    /// The id is empty or not plain letters and digits.
    UnusableName,
}

/// What storing a photo comes to.
#[derive(Debug, PartialEq, Eq)]
pub enum StorePlan {
    /// Already on the card: nothing to write.
    AlreadyCached,
    /// The card is full: not an error, just nothing written.
    NoRoom,
    /// Write the photo to this path (through a temporary name).
    Write(String),
}

/// An ASCII letter or digit.
pub open spec fn is_ascii_alphanumeric(c: char) -> bool {
    ('0' <= c <= '9') || ('A' <= c <= 'Z') || ('a' <= c <= 'z')
}

/// A usable photo id: non-empty, ASCII letters and digits only.
pub open spec fn usable_id(id: Seq<char>) -> bool {
    id.len() > 0 && forall|i: int| 0 <= i < id.len() ==> is_ascii_alphanumeric(#[trigger] id[i])
}

fn check_id(photo_id: &str) -> (r: bool)
    ensures
        r == usable_id(photo_id@),
{
    let cs = chars_of(photo_id);
    if cs.len() == 0 {
        return false;
    }
    let mut i: usize = 0;
    while i < cs.len()
        invariant
            cs@ == photo_id@,
            i <= cs@.len(),
            forall|j: int| 0 <= j < i ==> is_ascii_alphanumeric(cs@[j]),
        decreases cs.len() - i,
    {
        let c = cs[i];
        if !(('0' <= c && c <= '9') || ('A' <= c && c <= 'Z') || ('a' <= c && c <= 'z')) {
            assert(!is_ascii_alphanumeric(photo_id@[i as int]));
            return false;
        }
        i = i + 1;
    }
    true
}

/// Decides how to store a photo of `pixels_len` bytes under `photo_id`.
///
/// Refuses anything but exactly one photo's bytes, then an empty or
/// non-alphanumeric id. A photo already cached is not rewritten; with no room
/// nothing is written; otherwise it goes under the next order number.
pub fn plan_store(
    photo_id: &str,
    pixels_len: usize,
    entries: &Vec<String>,
    card_has_space: bool,
) -> (r: Result<StorePlan, CacheError>)
    requires
        sane(entries@),
        highest_order(entries@) != Some(u64::MAX),
    ensures
        pixels_len != PHOTO_BYTES ==> r == Err::<StorePlan, _>(CacheError::WrongSize(pixels_len)),
        pixels_len == PHOTO_BYTES && !usable_id(photo_id@) ==> r == Err::<StorePlan, _>(
            CacheError::UnusableName,
        ),
        pixels_len == PHOTO_BYTES && usable_id(photo_id@) ==> (r matches Ok(plan) && if cached(
            entries@,
            photo_id@,
        ) {
            plan == StorePlan::AlreadyCached
        } else if !(entries@.len() < TARGET_PHOTOS && card_has_space) {
            plan == StorePlan::NoRoom
        } else {
            plan matches StorePlan::Write(p) && p@ == cache_path(
                match highest_order(entries@) {
                    None => 0u64,
                    Some(h) => (h + 1) as u64,
                },
                photo_id@,
            )
        }),
{
    if pixels_len != PHOTO_BYTES {
        return Err(CacheError::WrongSize(pixels_len));
    }
    if !check_id(photo_id) {
        return Err(CacheError::UnusableName);
    }
    if contains(entries, photo_id) {
        return Ok(StorePlan::AlreadyCached);
    }
    if !has_room(count(entries), card_has_space) {
        return Ok(StorePlan::NoRoom);
    }
    Ok(StorePlan::Write(path_for(next_sequence(entries), photo_id)))
}

/// Whether a file read back from the cache is a whole photo; anything else is
/// discarded rather than shown as garbage.
pub fn is_complete_photo(len: usize) -> (r: bool)
    ensures
        r == (len == PHOTO_BYTES),
{
    len == PHOTO_BYTES
}

} // verus!
