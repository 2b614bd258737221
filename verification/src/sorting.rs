//! Alphabetical order of paths, so the owner controls the slideshow's order
//! by how the files are named.

use vstd::prelude::*;
use vstd::relations::{sorted_by, total_ordering};
use crate::text::chars_of;

verus! {

/// `a` comes no later than `b` alphabetically: character by character by
/// code point, a prefix first.
pub open spec fn path_le(a: Seq<char>, b: Seq<char>) -> bool
    decreases a.len(),
{
    if a.len() == 0 {
        true
    } else if b.len() == 0 {
        false
    } else if a[0] != b[0] {
        a[0] < b[0]
    } else {
        path_le(a.drop_first(), b.drop_first())
    }
}

proof fn lemma_path_le_reflexive(a: Seq<char>)
    ensures
        path_le(a, a),
    decreases a.len(),
{
    if a.len() > 0 {
        lemma_path_le_reflexive(a.drop_first());
    }
}

proof fn lemma_path_le_antisymmetric(a: Seq<char>, b: Seq<char>)
    requires
        path_le(a, b),
        path_le(b, a),
    ensures
        a == b,
    decreases a.len(),
{
    if a.len() > 0 && b.len() > 0 {
        lemma_path_le_antisymmetric(a.drop_first(), b.drop_first());
        assert(a =~= seq![a[0]] + a.drop_first());
        assert(b =~= seq![b[0]] + b.drop_first());
    } else {
        assert(a =~= b);
    }
}

proof fn lemma_path_le_transitive(a: Seq<char>, b: Seq<char>, c: Seq<char>)
    requires
        path_le(a, b),
        path_le(b, c),
    ensures
        path_le(a, c),
    decreases a.len(),
{
    if a.len() > 0 && b.len() > 0 && c.len() > 0 {
        if a[0] == b[0] && b[0] == c[0] {
            lemma_path_le_transitive(a.drop_first(), b.drop_first(), c.drop_first());
        }
    }
}

proof fn lemma_path_le_total(a: Seq<char>, b: Seq<char>)
    ensures
        path_le(a, b) || path_le(b, a),
    decreases a.len(),
{
    if a.len() > 0 && b.len() > 0 && a[0] == b[0] {
        lemma_path_le_total(a.drop_first(), b.drop_first());
    }
}

/// Alphabetical order is a total order.
pub proof fn lemma_path_order_total()
    ensures
        total_ordering(|a: Seq<char>, b: Seq<char>| path_le(a, b)),
{
    let leq = |a: Seq<char>, b: Seq<char>| path_le(a, b);
    assert forall|a: Seq<char>| #[trigger] leq(a, a) by {
        lemma_path_le_reflexive(a);
    }
    assert forall|a: Seq<char>, b: Seq<char>| #[trigger] leq(a, b) && #[trigger] leq(b, a) implies a
        == b by {
        lemma_path_le_antisymmetric(a, b);
    }
    assert forall|a: Seq<char>, b: Seq<char>, c: Seq<char>| #[trigger] leq(a, b) && #[trigger] leq(
        b,
        c,
    ) implies leq(a, c) by {
        lemma_path_le_transitive(a, b, c);
    }
    assert forall|a: Seq<char>, b: Seq<char>| #[trigger] leq(a, b) || #[trigger] leq(b, a) by {
        lemma_path_le_total(a, b);
    }
}

/// The characters of each path.
pub open spec fn path_views(paths: Seq<String>) -> Seq<Seq<char>> {
    paths.map_values(|p: String| p@)
}

/// Each path comes no later than any after it.
pub open spec fn in_path_order(s: Seq<Seq<char>>) -> bool {
    forall|i: int, j: int| 0 <= i < j < s.len() ==> path_le(#[trigger] s[i], #[trigger] s[j])
}

/// Putting paths in alphabetical order keeps exactly the same paths, each as
/// often as before, and leaves each no later than any after it.
pub proof fn lemma_sorted_paths(paths: Seq<Seq<char>>)
    ensures
        in_path_order(paths.sort_by(|a: Seq<char>, b: Seq<char>| path_le(a, b))),
        paths.sort_by(|a: Seq<char>, b: Seq<char>| path_le(a, b)).to_multiset()
            == paths.to_multiset(),
{
    let leq = |a: Seq<char>, b: Seq<char>| path_le(a, b);
    lemma_path_order_total();
    paths.lemma_sort_by_ensures(leq);
    let s = paths.sort_by(leq);
    assert forall|i: int, j: int| 0 <= i < j < s.len() implies path_le(#[trigger] s[i], #[trigger] s[j]) by {
        assert(leq(s[i], s[j]));
    }
}

/// Whether `a` comes no later than `b` alphabetically.
fn chars_le(a: &Vec<char>, b: &Vec<char>) -> (r: bool)
    ensures
        r == path_le(a@, b@),
{
    let mut i: usize = 0;
    assert(a@.skip(0) =~= a@);
    assert(b@.skip(0) =~= b@);
    while i < a.len() && i < b.len()
        invariant
            i <= a@.len(),
            i <= b@.len(),
            a@.subrange(0, i as int) == b@.subrange(0, i as int),
            path_le(a@, b@) == path_le(a@.skip(i as int), b@.skip(i as int)),
        decreases a.len() - i,
    {
        if a[i] != b[i] {
            return a[i] < b[i];
        }
        proof {
            assert(a@.skip(i as int).drop_first() =~= a@.skip(i + 1));
            assert(b@.skip(i as int).drop_first() =~= b@.skip(i + 1));
        }
        i = i + 1;
        assert(a@.subrange(0, i as int) =~= b@.subrange(0, i as int)) by {
            assert(a@.subrange(0, i - 1) =~= b@.subrange(0, i - 1));
        }
    }
    i == a.len()
}

/// The paths in alphabetical order.
pub fn sort_paths(paths: Vec<String>) -> (sorted: Vec<String>)
    ensures
        path_views(sorted@) == path_views(paths@).sort_by(|a: Seq<char>, b: Seq<char>| path_le(a, b)),
{
    proof {
        lemma_path_order_total();
    }
    let mut sorted: Vec<String> = Vec::new();
    let mut keys: Vec<Vec<char>> = Vec::new();
    let n = paths.len();
    let mut i: usize = 0;
    assert(path_views(sorted@) =~= Seq::empty());
    assert(path_views(paths@.subrange(0, 0)) =~= Seq::empty());
    while i < n
        invariant
            n == paths@.len(),
            i <= n,
            total_ordering(|a: Seq<char>, b: Seq<char>| path_le(a, b)),
            keys@.len() == sorted@.len(),
            forall|j: int| 0 <= j < keys@.len() ==> (#[trigger] keys@[j])@ == sorted@[j]@,
            in_path_order(path_views(sorted@)),
            path_views(sorted@).to_multiset() == path_views(paths@.subrange(0, i as int)).to_multiset(),
        decreases n - i,
    {
        let path = paths[i].clone();
        let key = chars_of(path.as_str());
        let mut pos: usize = sorted.len();
        while pos > 0 && !chars_le(&keys[pos - 1], &key)
            invariant
                pos <= sorted@.len(),
                keys@.len() == sorted@.len(),
                forall|j: int| 0 <= j < keys@.len() ==> (#[trigger] keys@[j])@ == sorted@[j]@,
                forall|j: int| pos <= j < sorted@.len() ==> !path_le(#[trigger] sorted@[j]@, key@),
            decreases pos,
        {
            pos = pos - 1;
        }
        let ghost before = path_views(sorted@);
        let ghost old_keys = keys@;
        let ghost old_sorted = sorted@;
        proof {
            assert forall|j: int| 0 <= j < pos implies path_le(#[trigger] before[j], key@) by {
                assert(path_le(before[pos - 1], key@));
                if j < pos - 1 {
                    assert(path_le(before[j], before[pos - 1]));
                    lemma_path_le_transitive(before[j], before[pos - 1], key@);
                }
            }
            assert forall|j: int| pos <= j < before.len() implies path_le(key@, #[trigger] before[j]) by {
                assert(!path_le(sorted@[j]@, key@));
                lemma_path_le_total(key@, before[j]);
            }
        }
        keys.insert(pos, key);
        sorted.insert(pos, path);
        proof {
            let after = path_views(sorted@);
            assert(after =~= before.insert(pos as int, key@));
            assert forall|a: int, b: int| 0 <= a < b < after.len() implies path_le(
                #[trigger] after[a],
                #[trigger] after[b],
            ) by {
                if b < pos {
                } else if b == pos {
                } else if a < pos {
                    assert(path_le(after[a], key@));
                    assert(path_le(key@, after[b]));
                    lemma_path_le_transitive(after[a], key@, after[b]);
                } else if a == pos {
                } else {
                    assert(after[a] == before[a - 1]);
                    assert(after[b] == before[b - 1]);
                }
            }
            assert forall|j: int| 0 <= j < keys@.len() implies (#[trigger] keys@[j])@
                == sorted@[j]@ by {
                if j < pos {
                } else if j == pos {
                } else {
                    assert(keys@[j] == old_keys[j - 1]);
                    assert(sorted@[j] == old_sorted[j - 1]);
                }
            }
            vstd::seq_lib::to_multiset_insert(before, pos as int, key@);
            let prefix = path_views(paths@.subrange(0, i as int));
            assert(path_views(paths@.subrange(0, i + 1)) =~= prefix.push(key@));
            vstd::seq_lib::to_multiset_build(prefix, key@);
        }
        i = i + 1;
    }
    proof {
        assert(paths@.subrange(0, n as int) =~= paths@);
        let all = path_views(paths@);
        let leq = |a: Seq<char>, b: Seq<char>| path_le(a, b);
        let out = path_views(sorted@);
        assert forall|a: int, b: int| 0 <= a < b < out.len() implies #[trigger] leq(out[a], out[b]) by {
            assert(path_le(out[a], out[b]));
        }
        assert(sorted_by(out, leq));
        all.lemma_sort_by_ensures(leq);
        vstd::seq_lib::lemma_sorted_unique(path_views(sorted@), all.sort_by(leq), leq);
    }
    sorted
}

} // verus!
