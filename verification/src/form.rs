//! Decoding the `application/x-www-form-urlencoded` bodies the setup page
//! posts, and escaping text for HTML.

use vstd::prelude::*;
use vstd::string::*;
use crate::text::{push_char, push_str};

verus! {

/// The value of an ASCII hexadecimal digit, of either case.
pub open spec fn hex_value(b: u8) -> Option<u8> {
    if 48 <= b <= 57 {
        Some((b - 48) as u8)
    } else if 97 <= b <= 102 {
        Some((b - 87) as u8)
    } else if 65 <= b <= 70 {
        Some((b - 55) as u8)
    } else {
        None
    }
}

fn hex_digit(b: u8) -> (v: Option<u8>)
    ensures
        v == hex_value(b),
{
    if 48 <= b && b <= 57 {
        Some(b - 48)
    } else if 97 <= b && b <= 102 {
        Some(b - 87)
    } else if 65 <= b && b <= 70 {
        Some(b - 55)
    } else {
        None
    }
}

/// Percent-decoding of the bytes `b`, one character per output byte.
///
/// `+` becomes a space and `%` followed by two hexadecimal digits becomes the
/// byte they spell; any other byte, including a `%` without two digits after
/// it, stands for itself. Each byte becomes the character with that code, so
/// bytes above 127 come out as Latin-1 characters rather than being joined
/// into UTF-8.
pub open spec fn percent_decoded(b: Seq<u8>) -> Seq<char>
    decreases b.len(),
{
    if b.len() == 0 {
        Seq::empty()
    } else if b[0] == 43 {
        seq![' '] + percent_decoded(b.drop_first())
    } else if b[0] == 37 && b.len() > 2 && hex_value(b[1]) is Some && hex_value(b[2]) is Some {
        seq![((hex_value(b[1])->0 * 16 + hex_value(b[2])->0) as u8) as char] + percent_decoded(
            b.subrange(3, b.len() as int),
        )
    } else {
        seq![b[0] as char] + percent_decoded(b.drop_first())
    }
}

/// The upper-case hexadecimal digit for `n < 16`, as an ASCII byte:
/// `0` to `9`, then `A` to `F`.
pub open spec fn upper_hex_digit(n: u8) -> u8 {
    if n < 10 {
        (48 + n) as u8
    } else {
        (65 + (n - 10)) as u8
    }
}

/// The lower-case hexadecimal digit for `n < 16`, as an ASCII byte:
/// `0` to `9`, then `a` to `f`.
pub open spec fn lower_hex_digit(n: u8) -> u8 {
    if n < 10 {
        (48 + n) as u8
    } else {
        (97 + (n - 10)) as u8
    }
}

/// `%` followed by the two hexadecimal digits of any byte `v`, in upper or in
/// lower case, decodes to the single character with code `v`, and decoding
/// goes on after them with whatever follows.
pub proof fn lemma_percent_escape_decodes(v: u8, rest: Seq<u8>)
    ensures
        percent_decoded(seq![37u8, upper_hex_digit(v / 16), upper_hex_digit(v % 16)] + rest)
            == seq![v as char] + percent_decoded(rest),
        percent_decoded(seq![37u8, lower_hex_digit(v / 16), lower_hex_digit(v % 16)] + rest)
            == seq![v as char] + percent_decoded(rest),
        percent_decoded(seq![37u8, upper_hex_digit(v / 16), upper_hex_digit(v % 16)])
            == seq![v as char],
        percent_decoded(seq![37u8, lower_hex_digit(v / 16), lower_hex_digit(v % 16)])
            == seq![v as char],
{
    let hi = v / 16;
    let lo = v % 16;
    assert(hex_value(upper_hex_digit(hi)) == Some(hi));
    assert(hex_value(upper_hex_digit(lo)) == Some(lo));
    assert(hex_value(lower_hex_digit(hi)) == Some(hi));
    assert(hex_value(lower_hex_digit(lo)) == Some(lo));
    assert((hi * 16 + lo) as u8 == v);
    let e = Seq::<u8>::empty();
    let bu = seq![37u8, upper_hex_digit(hi), upper_hex_digit(lo)] + rest;
    let bl = seq![37u8, lower_hex_digit(hi), lower_hex_digit(lo)] + rest;
    assert(bu.subrange(3, bu.len() as int) =~= rest);
    assert(bl.subrange(3, bl.len() as int) =~= rest);
    let eu = seq![37u8, upper_hex_digit(hi), upper_hex_digit(lo)];
    let el = seq![37u8, lower_hex_digit(hi), lower_hex_digit(lo)];
    assert(eu.subrange(3, 3) =~= e);
    assert(el.subrange(3, 3) =~= e);
    assert(percent_decoded(e) =~= Seq::<char>::empty());
    assert(seq![v as char] + Seq::<char>::empty() =~= seq![v as char]);
}

/// A `+` decodes to a space, and a byte other than `%` and `+` to the
/// character with its code; a `%` not followed by two hexadecimal digits
/// stands for itself.
pub proof fn lemma_plain_bytes_decode(b: u8, rest: Seq<u8>)
    ensures
        percent_decoded(seq![43u8] + rest) == seq![' '] + percent_decoded(rest),
        b != 37 && b != 43 ==> percent_decoded(seq![b] + rest) == seq![b as char]
            + percent_decoded(rest),
        percent_decoded(seq![37u8]) == seq!['%'],
        b != 43 && !(48 <= b <= 57 || 65 <= b <= 70 || 97 <= b <= 102) ==> percent_decoded(
            seq![37u8, b],
        )
            == seq!['%', b as char],
{
    let e = Seq::<u8>::empty();
    assert((seq![43u8] + rest).drop_first() =~= rest);
    assert((seq![b] + rest).drop_first() =~= rest);
    assert(seq![37u8].drop_first() =~= e);
    assert(seq![37u8, b].drop_first() =~= seq![b]);
    assert(seq![b].drop_first() =~= e);
    assert(percent_decoded(e) =~= Seq::<char>::empty());
    if b != 43 {
        assert(percent_decoded(seq![b]) =~= seq![b as char] + Seq::<char>::empty());
        assert(seq!['%'] + (seq![b as char] + Seq::<char>::empty()) =~= seq!['%', b as char]);
    }
    assert(seq!['%'] + Seq::<char>::empty() =~= seq!['%']);
    assert('%' == (37u8 as char));
}

/// Percent-decodes `b[from..to]`.
fn percent_decode_range(b: &[u8], from: usize, to: usize) -> (s: String)
    requires
        from <= to <= b@.len(),
    ensures
        s@ == percent_decoded(b@.subrange(from as int, to as int)),
{
    let mut out = String::new();
    let mut i = from;
    while i < to
        invariant
            from <= i <= to,
            to <= b@.len(),
            out@ + percent_decoded(b@.subrange(i as int, to as int)) == percent_decoded(
                b@.subrange(from as int, to as int),
            ),
        decreases to - i,
    {
        let ghost rest = b@.subrange(i as int, to as int);
        let c = b[i];
        if c == 43 {
            push_char(&mut out, ' ');
            i = i + 1;
            assert(rest.drop_first() =~= b@.subrange(i as int, to as int));
        } else if c == 37 && to - i > 2 && hex_digit(b[i + 1]).is_some() && hex_digit(
            b[i + 2],
        ).is_some() {
            let hi = hex_digit(b[i + 1]).unwrap();
            let lo = hex_digit(b[i + 2]).unwrap();
            push_char(&mut out, (hi * 16 + lo) as char);
            i = i + 3;
            assert(rest.subrange(3, rest.len() as int) =~= b@.subrange(i as int, to as int));
        } else {
            push_char(&mut out, c as char);
            i = i + 1;
            assert(rest.drop_first() =~= b@.subrange(i as int, to as int));
        }
        assert((out@ + percent_decoded(b@.subrange(i as int, to as int))) =~= (old_out_plus(
            out@,
        ) + percent_decoded(b@.subrange(i as int, to as int))));
    }
    assert(b@.subrange(to as int, to as int) =~= Seq::<u8>::empty());
    assert(out@ + Seq::<char>::empty() =~= out@);
    out
}

spec fn old_out_plus(s: Seq<char>) -> Seq<char> {
    s
}

/// Percent-decodes a form field; see [`percent_decoded`].
pub fn percent_decode(value: &str) -> (s: String)
    ensures
        s@ == percent_decoded(value.spec_bytes()),
{
    let b = value.as_bytes();
    let s = percent_decode_range(b, 0, b.len());
    assert(b@.subrange(0, b@.len() as int) =~= b@);
    s
}


/// The index of the first `sep` in `s`, or `s.len()` when there is none.
pub open spec fn sep_index(s: Seq<u8>, sep: u8) -> int
    decreases s.len(),
{
    if s.len() == 0 {
        0
    } else if s[0] == sep {
        0
    } else {
        1 + sep_index(s.drop_first(), sep)
    }
}

proof fn lemma_sep_index(s: Seq<u8>, sep: u8, m: int)
    requires
        0 <= m <= s.len(),
        forall|j: int| 0 <= j < m ==> s[j] != sep,
        m == s.len() || s[m] == sep,
    ensures
        sep_index(s, sep) == m,
    decreases s.len(),
{
    if s.len() > 0 && s[0] != sep {
        assert forall|j: int| 0 <= j < m - 1 implies s.drop_first()[j] != sep by {
            assert(s[j + 1] != sep);
        }
        if m == 0 {
        } else {
            lemma_sep_index(s.drop_first(), sep, m - 1);
        }
    }
}

/// The decoded key and value of one `key=value` piece; a piece without `=`
/// is a key with an empty value.
pub open spec fn form_pair(piece: Seq<u8>) -> (Seq<char>, Seq<char>) {
    let k = sep_index(piece, 61);
    (
        percent_decoded(piece.subrange(0, k)),
        if k < piece.len() {
            percent_decoded(piece.subrange(k + 1, piece.len() as int))
        } else {
            Seq::empty()
        },
    )
}

/// The fields of a form body, in order: the pieces between `&`s, empty
/// pieces skipped.
pub open spec fn form_pairs(b: Seq<u8>) -> Seq<(Seq<char>, Seq<char>)>
    decreases b.len(),
{
    let k = sep_index(b, 38);
    let first = if k > 0 { seq![form_pair(b.subrange(0, k))] } else { Seq::empty() };
    if 0 <= k < b.len() {
        first + form_pairs(b.subrange(k + 1, b.len() as int))
    } else {
        first
    }
}

/// The decoded fields of a form body.
///
/// Lookups see the last value given for a key, as when the fields are
/// inserted one by one into a map.
#[derive(Debug)]
pub struct FormFields {
    pub pairs: Vec<(String, String)>,
}

impl FormFields {
    pub open spec fn view_pairs(&self) -> Seq<(Seq<char>, Seq<char>)> {
        self.pairs@.map_values(|p: (String, String)| (p.0@, p.1@))
    }
}

/// The last value given for `key`, if any.
pub open spec fn field_value(pairs: Seq<(Seq<char>, Seq<char>)>, key: Seq<char>) -> Option<
    Seq<char>,
>
    decreases pairs.len(),
{
    if pairs.len() == 0 {
        None
    } else if pairs.last().0 == key {
        Some(pairs.last().1)
    } else {
        field_value(pairs.drop_last(), key)
    }
}

proof fn lemma_sep_index_bounds(s: Seq<u8>, sep: u8)
    ensures
        0 <= sep_index(s, sep) <= s.len(),
        sep_index(s, sep) < s.len() ==> s[sep_index(s, sep)] == sep,
    decreases s.len(),
{
    if s.len() > 0 && s[0] != sep {
        lemma_sep_index_bounds(s.drop_first(), sep);
    }
}

/// Finds the first `sep` in `b[from..to]`, or `to`.
fn find_byte(b: &[u8], from: usize, to: usize, sep: u8) -> (k: usize)
    requires
        from <= to <= b@.len(),
    ensures
        from <= k <= to,
        k - from == sep_index(b@.subrange(from as int, to as int), sep),
{
    let mut k = from;
    while k < to && b[k] != sep
        invariant
            from <= k <= to,
            to <= b@.len(),
            forall|j: int| from <= j < k ==> b@[j] != sep,
        decreases to - k,
    {
        k = k + 1;
    }
    proof {
        let sub = b@.subrange(from as int, to as int);
        assert forall|j: int| 0 <= j < k - from implies sub[j] != sep by {
            assert(sub[j] == b@[from + j]);
        }
        lemma_sep_index(sub, sep, k - from);
    }
    k
}

fn decode_pair(b: &[u8], from: usize, to: usize) -> (p: (String, String))
    requires
        from < to <= b@.len(),
    ensures
        (p.0@, p.1@) == form_pair(b@.subrange(from as int, to as int)),
{
    let ghost piece = b@.subrange(from as int, to as int);
    let k = find_byte(b, from, to, 61);
    let key = percent_decode_range(b, from, k);
    assert(piece.subrange(0, k - from) =~= b@.subrange(from as int, k as int));
    let value = if k < to {
        assert(piece.subrange(k - from + 1, piece.len() as int) =~= b@.subrange(
            k + 1,
            to as int,
        ));
        percent_decode_range(b, k + 1, to)
    } else {
        String::new()
    };
    (key, value)
}

/// Splits a form body into its decoded fields.
pub fn parse_form_encoded(input: &str) -> (f: FormFields)
    ensures
        f.view_pairs() == form_pairs(input.spec_bytes()),
{
    let b = input.as_bytes();
    let len = b.len();
    let mut pairs: Vec<(String, String)> = Vec::new();
    let mut start: usize = 0;
    assert(b@.subrange(0, len as int) =~= b@);
    assert(pairs@.map_values(|p: (String, String)| (p.0@, p.1@)) =~= Seq::<
        (Seq<char>, Seq<char>),
    >::empty());
    assert(Seq::<(Seq<char>, Seq<char>)>::empty() + form_pairs(b@) =~= form_pairs(b@));
    loop
        invariant_except_break
            pairs@.map_values(|p: (String, String)| (p.0@, p.1@)) + form_pairs(
                b@.subrange(start as int, len as int),
            ) == form_pairs(b@),
        invariant
            len == b@.len(),
            start <= len,
        ensures
            pairs@.map_values(|p: (String, String)| (p.0@, p.1@)) == form_pairs(b@),
        decreases len - start,
    {
        let ghost rest = b@.subrange(start as int, len as int);
        let ghost before = pairs@.map_values(|p: (String, String)| (p.0@, p.1@));
        let k = find_byte(b, start, len, 38);
        proof {
            lemma_sep_index_bounds(rest, 38);
        }
        if k > start {
            let pair = decode_pair(b, start, k);
            assert(rest.subrange(0, k - start) =~= b@.subrange(start as int, k as int));
            pairs.push(pair);
        }
        let ghost now = pairs@.map_values(|p: (String, String)| (p.0@, p.1@));
        if k == len {
            proof {
                assert(now =~= before + (if k > start {
                    seq![form_pair(rest.subrange(0, k - start))]
                } else {
                    Seq::<(Seq<char>, Seq<char>)>::empty()
                }));
                assert(now =~= before + form_pairs(rest));
                assert(b@.subrange(len as int, len as int) =~= Seq::<u8>::empty());
                assert(form_pairs(Seq::<u8>::empty()) =~= Seq::<(Seq<char>, Seq<char>)>::empty());
                assert(now + Seq::<(Seq<char>, Seq<char>)>::empty() =~= now);
            }
            break;
        }
        proof {
            assert(rest.subrange(k - start + 1, rest.len() as int) =~= b@.subrange(
                k + 1,
                len as int,
            ));
            assert(now =~= before + (if k > start {
                seq![form_pair(rest.subrange(0, k - start))]
            } else {
                Seq::<(Seq<char>, Seq<char>)>::empty()
            }));
        }
        start = k + 1;
    }
    assert(b@.subrange(0, len as int) =~= b@);
    FormFields { pairs }
}

impl FormFields {
    /// The last value given for `key`, if any.
    pub fn get(&self, key: &str) -> (v: Option<&String>)
        ensures
            match field_value(self.view_pairs(), key@) {
                None => v is None,
                Some(value) => v matches Some(s) && s@ == value,
            },
    {
        let mut i = self.pairs.len();
        assert(self.view_pairs().subrange(0, i as int) =~= self.view_pairs());
        while i > 0
            invariant
                i <= self.pairs@.len(),
                field_value(self.view_pairs(), key@) == field_value(
                    self.view_pairs().subrange(0, i as int),
                    key@,
                ),
            decreases i,
        {
            let ghost prefix = self.view_pairs().subrange(0, i as int);
            if crate::text::str_eq(self.pairs[i - 1].0.as_str(), key) {
                return Some(&self.pairs[i - 1].1);
            }
            assert(prefix.drop_last() =~= self.view_pairs().subrange(0, i - 1));
            i = i - 1;
        }
        None
    }
}

/// The HTML escape of one character.
pub open spec fn html_escaped_char(c: char) -> Seq<char> {
    if c == '&' {
        "&amp;"@
    } else if c == '<' {
        "&lt;"@
    } else if c == '>' {
        "&gt;"@
    } else if c == '"' {
        "&quot;"@
    } else if c == '\'' {
        "&#39;"@
    } else {
        seq![c]
    }
}

/// `s` with each of `& < > " '` replaced by its HTML entity.
pub open spec fn html_escaped(s: Seq<char>) -> Seq<char>
    decreases s.len(),
{
    if s.len() == 0 {
        Seq::empty()
    } else {
        html_escaped(s.drop_last()) + html_escaped_char(s.last())
    }
}

/// Escapes text for inclusion in HTML.
pub fn escape_html(value: &str) -> (s: String)
    ensures
        s@ == html_escaped(value@),
{
    let cs = crate::text::chars_of(value);
    let mut out = String::new();
    let mut i: usize = 0;
    while i < cs.len()
        invariant
            i <= cs@.len(),
            cs@ == value@,
            out@ == html_escaped(cs@.subrange(0, i as int)),
        decreases cs.len() - i,
    {
        let c = cs[i];
        if c == '&' {
            push_str(&mut out, "&amp;");
        } else if c == '<' {
            push_str(&mut out, "&lt;");
        } else if c == '>' {
            push_str(&mut out, "&gt;");
        } else if c == '"' {
            push_str(&mut out, "&quot;");
        } else if c == '\'' {
            push_str(&mut out, "&#39;");
        } else {
            push_char(&mut out, c);
        }
        assert(cs@.subrange(0, i + 1).drop_last() =~= cs@.subrange(0, i as int));
        i = i + 1;
    }
    assert(cs@.subrange(0, cs@.len() as int) =~= cs@);
    out
}

} // verus!
