//! File paths as the frame's storage sees them: names, extensions, stems.

use vstd::prelude::*;

verus! {

/// The index of the last `c` in `s`, or -1.
pub open spec fn last_index(s: Seq<char>, c: char) -> int
    decreases s.len(),
{
    if s.len() == 0 {
        -1
    } else if s.last() == c {
        s.len() - 1
    } else {
        last_index(s.drop_last(), c)
    }
}

/// How much of a path is left once trailing separators and trailing `.`
/// components are set aside, as path components are read: `/m/a.jpg/.` and
/// `/m/a.jpg/` both end with the component `a.jpg`, and a path that is just
/// `.` has no named last component.
pub open spec fn kept_len(p: Seq<char>) -> int
    decreases p.len(),
{
    if p.len() == 0 {
        0
    } else if p.last() == '/' {
        kept_len(p.drop_last())
    } else if p.len() >= 2 && p.last() == '.' && p[p.len() - 2] == '/' {
        kept_len(p.drop_last())
    } else if p.len() == 1 && p[0] == '.' {
        0
    } else {
        p.len() as int
    }
}

/// The path up to the end of its last component.
pub open spec fn kept(p: Seq<char>) -> Seq<char> {
    p.subrange(0, kept_len(p))
}

/// The last component of a path: what follows the last `/` once trailing
/// separators and `.` components are set aside.
pub open spec fn file_name(p: Seq<char>) -> Seq<char> {
    let q = kept(p);
    q.subrange(last_index(q, '/') + 1, q.len() as int)
}

proof fn lemma_kept_len_bounds(p: Seq<char>)
    ensures
        0 <= kept_len(p) <= p.len(),
    decreases p.len(),
{
    if p.len() > 0 {
        lemma_kept_len_bounds(p.drop_last());
    }
}

/// Where the last component of `cs` ends.
fn kept_end(cs: &Vec<char>) -> (m: usize)
    ensures
        m == kept_len(cs@),
{
    let mut m: usize = cs.len();
    assert(cs@.subrange(0, m as int) =~= cs@);
    loop
        invariant
            m <= cs@.len(),
            kept_len(cs@) == kept_len(cs@.subrange(0, m as int)),
        decreases m,
    {
        let ghost q = cs@.subrange(0, m as int);
        if m > 0 && cs[m - 1] == '/' {
            assert(q.drop_last() =~= cs@.subrange(0, m - 1));
            m = m - 1;
        } else if m >= 2 && cs[m - 1] == '.' && cs[m - 2] == '/' {
            assert(q.drop_last() =~= cs@.subrange(0, m - 1));
            m = m - 1;
        } else if m == 1 && cs[0] == '.' {
            return 0;
        } else {
            return m;
        }
    }
}

/// A file name's extension: what follows its last `.`; none when there is no
/// `.`, when the only `.` starts the name, or when there is no file name.
pub open spec fn extension(p: Seq<char>) -> Option<Seq<char>> {
    let n = file_name(p);
    let d = last_index(n, '.');
    if n.len() == 0 || n == ".."@ || d <= 0 {
        None
    } else {
        Some(n.subrange(d + 1, n.len() as int))
    }
}

pub fn find_last(cs: &Vec<char>, end: usize, c: char) -> (i: i64)
    requires
        end <= cs@.len(),
        cs@.len() < 0x7fff_ffff_ffff_ffff,
    ensures
        i == last_index(cs@.subrange(0, end as int), c),
{
    let mut k = end;
    while k > 0
        invariant
            k <= end <= cs@.len(),
            cs@.len() < 0x7fff_ffff_ffff_ffff,
            last_index(cs@.subrange(0, end as int), c) == last_index(cs@.subrange(0, k as int), c),
        decreases k,
    {
        if cs[k - 1] == c {
            return (k - 1) as i64;
        }
        assert(cs@.subrange(0, k as int).drop_last() =~= cs@.subrange(0, k - 1));
        k = k - 1;
    }
    -1
}

pub proof fn lemma_last_index_bounds(s: Seq<char>, c: char)
    ensures
        -1 <= last_index(s, c) < s.len(),
    decreases s.len(),
{
    if s.len() > 0 && s.last() != c {
        lemma_last_index_bounds(s.drop_last(), c);
    }
}

/// Where the extension of `cs` lies, if it has one.
pub fn extension_start(cs: &Vec<char>) -> (r: Option<(usize, usize)>)
    requires
        cs@.len() < 0x7fff_ffff_ffff_ffff,
    ensures
        match extension(cs@) {
            None => r is None,
            Some(e) => r matches Some((k, m)) && k <= m <= cs@.len() && e == cs@.subrange(
                k as int,
                m as int,
            ),
        },
{
    let m = kept_end(cs);
    proof {
        lemma_kept_len_bounds(cs@);
    }
    let ghost q = cs@.subrange(0, m as int);
    let slash = find_last(cs, m, '/');
    proof {
        lemma_last_index_bounds(q, '/');
    }
    let name_start = (slash + 1) as usize;
    let ghost name = q.subrange(name_start as int, m as int);
    assert(name == file_name(cs@));
    if name_start == m {
        return None;
    }
    if m - name_start == 2 && cs[name_start] == '.' && cs[name_start + 1] == '.' {
        assert(name =~= ".."@) by {
            reveal_strlit("..");
        }
        return None;
    }
    let dot = find_last(cs, m, '.');
    proof {
        lemma_last_index_bounds(q, '.');
    }
    // The last dot of the kept path lies in the file name exactly when the
    // name has one.
    if dot <= name_start as i64 {
        proof {
            lemma_last_index_suffix(q, '.', name_start as int);
            if name == ".."@ {
                reveal_strlit("..");
                assert(name.len() == 2);
            }
        }
        return None;
    }
    proof {
        lemma_last_index_suffix(q, '.', name_start as int);
        if name == ".."@ {
            reveal_strlit("..");
            assert(name.len() == 2 && name[0] == '.' && name[1] == '.');
        }
        assert(name.subrange(dot - name_start + 1, name.len() as int) =~= cs@.subrange(
            dot + 1,
            m as int,
        ));
    }
    Some(((dot + 1) as usize, m))
}

/// The last `c` of `s` relative to a suffix starting at `k`: inside the
/// suffix when it lies at or after `k`.
pub proof fn lemma_last_index_suffix(s: Seq<char>, c: char, k: int)
    requires
        0 <= k <= s.len(),
    ensures
        ({
            let t = s.subrange(k, s.len() as int);
            let whole = last_index(s, c);
            if whole >= k {
                last_index(t, c) == whole - k
            } else {
                last_index(t, c) == -1
            }
        }),
    decreases s.len(),
{
    let t = s.subrange(k, s.len() as int);
    if s.len() == k {
        assert(t.len() == 0);
        lemma_last_index_bounds(s, c);
    } else if s.last() == c {
        assert(t.last() == c);
    } else {
        lemma_last_index_suffix(s.drop_last(), c, k);
        assert(t.drop_last() =~= s.drop_last().subrange(k, s.len() - 1));
    }
}


/// A file name without its extension: the whole name when it has no `.`
/// or only a leading one; none when there is no file name.
pub open spec fn stem(p: Seq<char>) -> Option<Seq<char>> {
    let n = file_name(p);
    let d = last_index(n, '.');
    if n.len() == 0 || n == ".."@ {
        None
    } else if d <= 0 {
        Some(n)
    } else {
        Some(n.subrange(0, d))
    }
}

/// Where the stem of `cs` lies, if it has one.
pub fn stem_range(cs: &Vec<char>) -> (r: Option<(usize, usize)>)
    requires
        cs@.len() < 0x7fff_ffff_ffff_ffff,
    ensures
        match stem(cs@) {
            None => r is None,
            Some(st) => r matches Some((a, b)) && a <= b <= cs@.len() && st == cs@.subrange(
                a as int,
                b as int,
            ),
        },
{
    let m = kept_end(cs);
    proof {
        lemma_kept_len_bounds(cs@);
    }
    let ghost q = cs@.subrange(0, m as int);
    let slash = find_last(cs, m, '/');
    proof {
        lemma_last_index_bounds(q, '/');
    }
    let name_start = (slash + 1) as usize;
    let ghost name = q.subrange(name_start as int, m as int);
    assert(name == file_name(cs@));
    if name_start == m {
        return None;
    }
    if m - name_start == 2 && cs[name_start] == '.' && cs[name_start + 1] == '.' {
        assert(name =~= ".."@) by {
            reveal_strlit("..");
        }
        return None;
    }
    let dot = find_last(cs, m, '.');
    proof {
        lemma_last_index_bounds(q, '.');
        lemma_last_index_suffix(q, '.', name_start as int);
        if name == ".."@ {
            reveal_strlit("..");
            assert(name.len() == 2 && name[0] == '.' && name[1] == '.');
        }
    }
    if dot <= name_start as i64 {
        assert(name =~= cs@.subrange(name_start as int, m as int));
        return Some((name_start, m));
    }
    assert(name.subrange(0, dot - name_start) =~= cs@.subrange(name_start as int, dot as int));
    Some((name_start, dot as usize))
}

/// The index of the first `c` in `s`, or `s.len()`.
pub open spec fn first_index(s: Seq<char>, c: char) -> int
    decreases s.len(),
{
    if s.len() == 0 {
        0
    } else if s[0] == c {
        0
    } else {
        1 + first_index(s.drop_first(), c)
    }
}

pub proof fn lemma_first_index(s: Seq<char>, c: char, m: int)
    requires
        0 <= m <= s.len(),
        forall|j: int| 0 <= j < m ==> s[j] != c,
        m == s.len() || s[m] == c,
    ensures
        first_index(s, c) == m,
    decreases s.len(),
{
    if s.len() > 0 && s[0] != c {
        assert forall|j: int| 0 <= j < m - 1 implies s.drop_first()[j] != c by {
            assert(s[j + 1] != c);
        }
        if m > 0 {
            lemma_first_index(s.drop_first(), c, m - 1);
        }
    }
}

/// The first `c` in `cs[from..to]`, or `to`.
pub fn find_first(cs: &Vec<char>, from: usize, to: usize, c: char) -> (k: usize)
    requires
        from <= to <= cs@.len(),
    ensures
        from <= k <= to,
        k - from == first_index(cs@.subrange(from as int, to as int), c),
{
    let mut k = from;
    while k < to && cs[k] != c
        invariant
            from <= k <= to,
            to <= cs@.len(),
            forall|j: int| from <= j < k ==> cs@[j] != c,
        decreases to - k,
    {
        k = k + 1;
    }
    proof {
        let sub = cs@.subrange(from as int, to as int);
        assert forall|j: int| 0 <= j < k - from implies sub[j] != c by {
            assert(sub[j] == cs@[from + j]);
        }
        lemma_first_index(sub, c, k - from);
    }
    k
}

} // verus!
