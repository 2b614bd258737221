//! The owner's own photos on the SD card: which files count as photos, what
//! is reported about them, and the order the slideshow walks them in.

use vstd::prelude::*;
use crate::paths::{extension, extension_start};
use crate::sorting::{path_le, path_views, sort_paths};
use crate::text::{chars_of, decimal, owned, push_decimal, push_str};

verus! {

/// Most photos indexed from the card.
pub const MAX_PHOTOS: usize = 5000;

/// How long each photo stays on screen, in milliseconds.
pub const ROTATION_INTERVAL_MS: u64 = 30_000;

/// How long to pause once every photo has failed to load, in milliseconds.
pub const ALL_FAILED_PAUSE_MS: u64 = 60_000;

/// An ASCII letter in lower case; anything else unchanged.
pub open spec fn ascii_lower(c: char) -> char {
    if 'A' <= c <= 'Z' {
        ((c as u32) + 32) as char
    } else {
        c
    }
}

/// `a` equals the lower-case ASCII word `b` when ASCII case is ignored.
pub open spec fn eq_ignoring_case(a: Seq<char>, b: Seq<char>) -> bool {
    a.len() == b.len() && forall|i: int| 0 <= i < a.len() ==> ascii_lower(#[trigger] a[i]) == b[i]
}

/// A file the frame can decode: `.jpg`, `.jpeg` or `.png`, in any case.
pub open spec fn supported_photo(p: Seq<char>) -> bool {
    match extension(p) {
        Some(e) => eq_ignoring_case(e, "jpg"@) || eq_ignoring_case(e, "jpeg"@) || eq_ignoring_case(
            e,
            "png"@,
        ),
        None => false,
    }
}

/// The extension `e` spells `jpg`, `jpeg` or `png`, each letter in either
/// case.
pub open spec fn photo_extension_letters(e: Seq<char>) -> bool {
    ||| e.len() == 3 && (e[0] == 'j' || e[0] == 'J') && (e[1] == 'p' || e[1] == 'P') && (e[2]
        == 'g' || e[2] == 'G')
    ||| e.len() == 4 && (e[0] == 'j' || e[0] == 'J') && (e[1] == 'p' || e[1] == 'P') && (e[2]
        == 'e' || e[2] == 'E') && (e[3] == 'g' || e[3] == 'G')
    ||| e.len() == 3 && (e[0] == 'p' || e[0] == 'P') && (e[1] == 'n' || e[1] == 'N') && (e[2]
        == 'g' || e[2] == 'G')
}

proof fn lemma_lower_is(c: char, lower: char, upper: char)
    requires
        'a' <= lower <= 'z',
        upper as u32 + 32 == lower as u32,
    ensures
        ascii_lower(c) == lower <==> (c == lower || c == upper),
{
}

/// A path names a photo exactly when its extension is `jpg`, `jpeg` or `png`
/// with each letter in upper or lower case, so two paths whose extensions
/// differ only in ASCII case are both photos or both not.
pub proof fn lemma_photo_extension_any_case(p: Seq<char>)
    ensures
        supported_photo(p) <==> (extension(p) matches Some(e) && photo_extension_letters(e)),
{
    reveal_strlit("jpg");
    reveal_strlit("jpeg");
    reveal_strlit("png");
    if let Some(e) = extension(p) {
        if e.len() == 3 || e.len() == 4 {
            lemma_lower_is(e[0], 'j', 'J');
            lemma_lower_is(e[1], 'p', 'P');
            lemma_lower_is(e[2], 'g', 'G');
            lemma_lower_is(e[2], 'e', 'E');
            lemma_lower_is(e[0], 'p', 'P');
            lemma_lower_is(e[1], 'n', 'N');
            if e.len() == 4 {
                lemma_lower_is(e[3], 'g', 'G');
            }
            assert(eq_ignoring_case(e, "jpg"@) <==> (e.len() == 3 && ascii_lower(e[0]) == 'j'
                && ascii_lower(e[1]) == 'p' && ascii_lower(e[2]) == 'g'));
            assert(eq_ignoring_case(e, "png"@) <==> (e.len() == 3 && ascii_lower(e[0]) == 'p'
                && ascii_lower(e[1]) == 'n' && ascii_lower(e[2]) == 'g'));
            assert(eq_ignoring_case(e, "jpeg"@) <==> (e.len() == 4 && ascii_lower(e[0]) == 'j'
                && ascii_lower(e[1]) == 'p' && ascii_lower(e[2]) == 'e' && ascii_lower(e[3])
                == 'g'));
        }
    }
}

/// Two paths with the same extension up to ASCII case are both photos or
/// both not.
pub proof fn lemma_photo_ignores_extension_case(p: Seq<char>, q: Seq<char>)
    requires
        extension(p) matches Some(a) && extension(q) matches Some(b) && a.len() == b.len()
            && forall|i: int|
            0 <= i < a.len() ==> (#[trigger] a[i] == b[i] || ('A' <= a[i] <= 'Z' && b[i] as u32
                == a[i] as u32 + 32) || ('A' <= b[i] <= 'Z' && a[i] as u32 == b[i] as u32 + 32)),
    ensures
        supported_photo(p) == supported_photo(q),
{
    lemma_photo_extension_any_case(p);
    lemma_photo_extension_any_case(q);
    let a = extension(p)->Some_0;
    let b = extension(q)->Some_0;
    if a.len() == 3 || a.len() == 4 {
        assert(a[0] == b[0] || ('A' <= a[0] <= 'Z' && b[0] as u32 == a[0] as u32 + 32) || (
        'A' <= b[0] <= 'Z' && a[0] as u32 == b[0] as u32 + 32));
        assert(a[1] == b[1] || ('A' <= a[1] <= 'Z' && b[1] as u32 == a[1] as u32 + 32) || (
        'A' <= b[1] <= 'Z' && a[1] as u32 == b[1] as u32 + 32));
        assert(a[2] == b[2] || ('A' <= a[2] <= 'Z' && b[2] as u32 == a[2] as u32 + 32) || (
        'A' <= b[2] <= 'Z' && a[2] as u32 == b[2] as u32 + 32));
        if a.len() == 4 {
            assert(a[3] == b[3] || ('A' <= a[3] <= 'Z' && b[3] as u32 == a[3] as u32 + 32) || (
            'A' <= b[3] <= 'Z' && a[3] as u32 == b[3] as u32 + 32));
        }
    }
}

/// The frame's own note on the card: any `.txt` file, in any case.
pub open spec fn readme_file(p: Seq<char>) -> bool {
    match extension(p) {
        Some(e) => eq_ignoring_case(e, "txt"@),
        None => false,
    }
}

fn eq_ignore_case(cs: &Vec<char>, from: usize, to: usize, word: &str) -> (r: bool)
    requires
        from <= to <= cs@.len(),
    ensures
        r == eq_ignoring_case(cs@.subrange(from as int, to as int), word@),
{
    let w = chars_of(word);
    if to - from != w.len() {
        return false;
    }
    let mut i: usize = 0;
    while i < w.len()
        invariant
            from <= to <= cs@.len(),
            to - from == w@.len(),
            w@ == word@,
            i <= w@.len(),
            forall|j: int| 0 <= j < i ==> ascii_lower(cs@[from + j]) == w@[j],
        decreases w.len() - i,
    {
        let c = cs[from + i];
        let lower = if 'A' <= c && c <= 'Z' { ((c as u32) + 32) as u8 as char } else { c };
        assert(lower == ascii_lower(c)) by {
            if 'A' <= c && c <= 'Z' {
                assert(((c as u32) + 32) as u8 as char == ((c as u32) + 32) as char);
            }
        }
        if lower != w[i] {
            assert(!(ascii_lower(cs@.subrange(from as int, to as int)[i as int]) == word@[i as int]));
            return false;
        }
        i = i + 1;
    }
    proof {
        let sub = cs@.subrange(from as int, to as int);
        assert forall|j: int| 0 <= j < sub.len() implies ascii_lower(#[trigger] sub[j]) == word@[j] by {
            assert(sub[j] == cs@[from + j]);
        }
    }
    true
}

/// Whether a path names a photo the frame can decode.
pub fn is_supported(path: &str) -> (r: bool)
    requires
        path@.len() < 0x7fff_ffff_ffff_ffff,
    ensures
        r == supported_photo(path@),
        r == (extension(path@) matches Some(e) && photo_extension_letters(e)),
{
    proof {
        lemma_photo_extension_any_case(path@);
    }
    let cs = chars_of(path);
    match extension_start(&cs) {
        None => false,
        Some((k, m)) => eq_ignore_case(&cs, k, m, "jpg") || eq_ignore_case(&cs, k, m, "jpeg")
            || eq_ignore_case(&cs, k, m, "png"),
    }
}

/// Whether a path names a text note, which is not counted as an unreadable
/// photo.
pub fn is_readme(path: &str) -> (r: bool)
    requires
        path@.len() < 0x7fff_ffff_ffff_ffff,
    ensures
        r == readme_file(path@),
        r == (extension(path@) matches Some(e) && e.len() == 3 && (e[0] == 't' || e[0] == 'T') && (
        e[1] == 'x' || e[1] == 'X') && (e[2] == 't' || e[2] == 'T')),
{
    proof {
        reveal_strlit("txt");
        if let Some(e) = extension(path@) {
            if e.len() == 3 {
                lemma_lower_is(e[0], 't', 'T');
                lemma_lower_is(e[1], 'x', 'X');
                lemma_lower_is(e[2], 't', 'T');
                assert(eq_ignoring_case(e, "txt"@) <==> (ascii_lower(e[0]) == 't' && ascii_lower(
                    e[1],
                ) == 'x' && ascii_lower(e[2]) == 't'));
            }
        }
    }
    let cs = chars_of(path);
    match extension_start(&cs) {
        None => false,
        Some((k, m)) => eq_ignore_case(&cs, k, m, "txt"),
    }
}


/// Photos found on the card, and how many other files could not be read.
#[derive(Debug, Default)]
pub struct LocalLibrary {
    pub photos: Vec<String>,
    /// Files present but not decodable.
    pub skipped: usize,
}

/// The report on a library of `found` photos with `skipped` unreadable files.
pub open spec fn library_summary(found: nat, skipped: nat) -> Seq<char> {
    if found == 0 && skipped == 0 {
        "no photos on card"@
    } else if found == 0 {
        decimal(skipped) + " file(s) on card, none readable"@
    } else if skipped == 0 {
        decimal(found) + " photo(s) on card"@
    } else {
        decimal(found) + " photo(s) on card, "@ + decimal(skipped) + " unreadable"@
    }
}

impl LocalLibrary {
    pub fn is_empty(&self) -> (r: bool)
        ensures
            r == (self.photos@.len() == 0),
    {
        self.photos.len() == 0
    }

    pub fn len(&self) -> (n: usize)
        ensures
            n == self.photos@.len(),
    {
        self.photos.len()
    }

    pub fn skipped(&self) -> (n: usize)
        ensures
            n == self.skipped,
    {
        self.skipped
    }

    /// Plain-language summary for Home Assistant.
    pub fn summary(&self) -> (s: String)
        ensures
            s@ == library_summary(self.photos@.len(), self.skipped as nat),
    {
        let found = self.photos.len();
        let skipped = self.skipped;
        if found == 0 && skipped == 0 {
            return owned("no photos on card");
        }
        let mut s = String::new();
        if found == 0 {
            push_decimal(&mut s, skipped as u64);
            push_str(&mut s, " file(s) on card, none readable");
            return s;
        }
        push_decimal(&mut s, found as u64);
        if skipped == 0 {
            push_str(&mut s, " photo(s) on card");
            return s;
        }
        push_str(&mut s, " photo(s) on card, ");
        push_decimal(&mut s, skipped as u64);
        push_str(&mut s, " unreadable");
        s
    }
}

/// A directory entry: its path and whether it is a regular file.
#[derive(Debug)]
pub struct DirEntry {
    pub path: String,
    pub is_file: bool,
}

/// Path lengths the library handles.
pub open spec fn sane_paths(entries: Seq<DirEntry>) -> bool {
    forall|i: int| 0 <= i < entries.len() ==> (#[trigger] entries[i]).path@.len() < 0x7fff_ffff_ffff_ffff
}

/// The library indexed from directory entries in the order given: photos
/// kept up to `MAX_PHOTOS`, and every other file that is not a note counted
/// as skipped. Directories are ignored.
pub open spec fn indexed(entries: Seq<DirEntry>) -> (Seq<Seq<char>>, nat)
    decreases entries.len(),
{
    if entries.len() == 0 {
        (Seq::empty(), 0)
    } else {
        let (photos, skipped) = indexed(entries.drop_last());
        let e = entries.last();
        if !e.is_file {
            (photos, skipped)
        } else if supported_photo(e.path@) {
            if photos.len() < MAX_PHOTOS {
                (photos.push(e.path@), skipped)
            } else {
                (photos, skipped)
            }
        } else if !readme_file(e.path@) {
            (photos, skipped + 1)
        } else {
            (photos, skipped)
        }
    }
}

/// Indexes the owner's folder from its entries. Which photos are kept up to
/// `MAX_PHOTOS` follows the order the directory listed them; the photos are
/// then put in alphabetical order, so naming the files controls the order
/// they are shown in.
pub fn index_local_photos(entries: Vec<DirEntry>) -> (lib: LocalLibrary)
    requires
        sane_paths(entries@),
    ensures
        path_views(lib.photos@) == indexed(entries@).0.sort_by(
            |a: Seq<char>, b: Seq<char>| path_le(a, b),
        ),
        lib.skipped == indexed(entries@).1,
{
    let mut photos: Vec<String> = Vec::new();
    let mut skipped: usize = 0;
    let n = entries.len();
    let mut i: usize = 0;
    while i < n
        invariant
            n == entries@.len(),
            i <= n,
            sane_paths(entries@),
            skipped <= i,
            photos@.map_values(|p: String| p@) == indexed(entries@.subrange(0, i as int)).0,
            skipped == indexed(entries@.subrange(0, i as int)).1,
        decreases n - i,
    {
        let e = &entries[i];
        assert(entries@.subrange(0, i + 1).drop_last() =~= entries@.subrange(0, i as int));
        assert(e.path@.len() < 0x7fff_ffff_ffff_ffff);
        if e.is_file {
            if is_supported(e.path.as_str()) {
                if photos.len() < MAX_PHOTOS {
                    photos.push(e.path.clone());
                }
            } else if !is_readme(e.path.as_str()) {
                skipped = skipped + 1;
            }
        }
        i = i + 1;
        assert(photos@.map_values(|p: String| p@) =~= indexed(entries@.subrange(0, i as int)).0);
    }
    assert(entries@.subrange(0, n as int) =~= entries@);
    assert(path_views(photos@) =~= photos@.map_values(|p: String| p@));
    let photos = sort_paths(photos);
    LocalLibrary { photos, skipped }
}

/// Where the card slideshow has got to.
#[derive(Debug)]
pub struct SlideshowCursor {
    pub index: usize,
    pub consecutive_failures: usize,
}

/// What to do after trying to load a photo.
#[derive(Clone, Copy, Debug, PartialEq, Eq, Structural)]
pub enum SlideshowPause {
    /// Shown: keep it up for the rotation interval.
    Rotate,
    /// Failed: move straight on to the next file.
    Skip,
    /// Every file in a row has failed: pause before trying again.
    BackOff,
}

impl SlideshowCursor {
    pub fn new() -> (c: Self)
        ensures
            c.index == 0,
            c.consecutive_failures == 0,
    {
        SlideshowCursor { index: 0, consecutive_failures: 0 }
    }

    /// The position of the photo to show next, cycling through the library.
    pub fn next_photo(&mut self, len: usize) -> (k: usize)
        requires
            len > 0,
        ensures
            k == old(self).index % len,
            k < len,
            final(self).index == old(self).index.wrapping_add(1),
            final(self).consecutive_failures == old(self).consecutive_failures,
    {
        let k = self.index % len;
        self.index = self.index.wrapping_add(1);
        k
    }

    /// A photo loaded and was queued: the failure run ends.
    pub fn loaded(&mut self) -> (p: SlideshowPause)
        ensures
            p == SlideshowPause::Rotate,
            final(self).consecutive_failures == 0,
            final(self).index == old(self).index,
    {
        self.consecutive_failures = 0;
        SlideshowPause::Rotate
    }

    /// A photo failed to load. Once as many in a row have failed as there are
    /// photos, the folder is unusable for now: pause and start counting again.
    pub fn failed(&mut self, len: usize) -> (p: SlideshowPause)
        requires
            old(self).consecutive_failures < len,
        ensures
            old(self).consecutive_failures + 1 >= len ==> p == SlideshowPause::BackOff
                && final(self).consecutive_failures == 0,
            old(self).consecutive_failures + 1 < len ==> p == SlideshowPause::Skip
                && final(self).consecutive_failures == old(self).consecutive_failures + 1,
            final(self).consecutive_failures < len,
            final(self).index == old(self).index,
    {
        self.consecutive_failures = self.consecutive_failures + 1;
        if self.consecutive_failures >= len {
            self.consecutive_failures = 0;
            SlideshowPause::BackOff
        } else {
            SlideshowPause::Skip
        }
    }
}

} // verus!
