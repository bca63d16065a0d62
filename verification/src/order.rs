//! Lexicographic order on path strings, and a sorted copy of a path list.
//!
//! A directory digest must combine its entries in a deterministic,
//! path-sorted order, whatever order the filesystem listed them in. The sort
//! here fixes that order: its result is a permutation of the input, sorted
//! by the code points of the characters.

use vstd::prelude::*;

use vstd::seq_lib::to_multiset_insert;

verus! {

/// Lexicographic order on character sequences, by code point: the empty
/// sequence comes first, and a proper prefix comes before what extends it.
pub open spec fn spec_str_le(a: Seq<char>, b: Seq<char>) -> bool
    decreases a.len(),
{
    if a.len() == 0 {
        true
    } else if b.len() == 0 {
        false
    } else if a[0] as u32 == b[0] as u32 {
        spec_str_le(a.drop_first(), b.drop_first())
    } else {
        (a[0] as u32) < (b[0] as u32)
    }
}

/// The views of a sequence of strings.
pub open spec fn views_of(paths: Seq<String>) -> Seq<Seq<char>> {
    paths.map_values(|p: String| p@)
}

/// Every pair of entries stands in lexicographic order.
pub open spec fn views_sorted(s: Seq<Seq<char>>) -> bool {
    forall|x: int, y: int| 0 <= x < y < s.len() ==> spec_str_le(s[x], s[y])
}

/// Any two character sequences are ordered one way or the other.
pub proof fn lemma_str_le_connected(a: Seq<char>, b: Seq<char>)
    ensures
        spec_str_le(a, b) || spec_str_le(b, a),
    decreases a.len(),
{
    if a.len() > 0 && b.len() > 0 {
        if a[0] as u32 == b[0] as u32 {
            lemma_str_le_connected(a.drop_first(), b.drop_first());
        }
    }
}

/// The lexicographic order is transitive.
pub proof fn lemma_str_le_transitive(a: Seq<char>, b: Seq<char>, c: Seq<char>)
    requires
        spec_str_le(a, b),
        spec_str_le(b, c),
    ensures
        spec_str_le(a, c),
    decreases a.len(),
{
    if a.len() > 0 && b.len() > 0 && c.len() > 0 {
        if a[0] as u32 == b[0] as u32 && b[0] as u32 == c[0] as u32 {
            lemma_str_le_transitive(a.drop_first(), b.drop_first(), c.drop_first());
        }
    }
}

/// Comparing two sequences is deciding their order past any prefix on which
/// they agree.
proof fn lemma_str_le_skip_common_prefix(a: Seq<char>, b: Seq<char>, i: int)
    requires
        0 <= i <= a.len(),
        i <= b.len(),
        forall|j: int| 0 <= j < i ==> a[j] as u32 == b[j] as u32,
    ensures
        spec_str_le(a, b) == spec_str_le(a.skip(i), b.skip(i)),
    decreases i,
{
    if i == 0 {
        assert(a.skip(0) =~= a);
        assert(b.skip(0) =~= b);
    } else {
        assert(a[0] as u32 == b[0] as u32);
        lemma_str_le_skip_common_prefix(a.drop_first(), b.drop_first(), i - 1);
        assert(a.drop_first().skip(i - 1) =~= a.skip(i));
        assert(b.drop_first().skip(i - 1) =~= b.skip(i));
    }
}

/// Whether `a` comes before `b` (or equals it) in lexicographic order.
pub fn str_le(a: &String, b: &String) -> (r: bool)
    ensures
        r == spec_str_le(a@, b@),
{
    let a_len = a.as_str().unicode_len();
    let b_len = b.as_str().unicode_len();
    let mut i: usize = 0;
    while i < a_len && i < b_len
        invariant
            i <= a_len,
            i <= b_len,
            a_len == a@.len(),
            b_len == b@.len(),
            forall|j: int| 0 <= j < i ==> a@[j] as u32 == b@[j] as u32,
        decreases a_len - i,
    {
        let ca = a.as_str().get_char(i) as u32;
        let cb = b.as_str().get_char(i) as u32;
        if ca != cb {
            proof {
                lemma_str_le_skip_common_prefix(a@, b@, i as int);
                assert(a@.skip(i as int)[0] == a@[i as int]);
                assert(b@.skip(i as int)[0] == b@[i as int]);
            }
            return ca < cb;
        }
        i = i + 1;
    }
    proof {
        lemma_str_le_skip_common_prefix(a@, b@, i as int);
        if a_len <= b_len {
            assert(a@.skip(i as int).len() == 0);
        } else {
            assert(b@.skip(i as int).len() == 0);
            assert(a@.skip(i as int).len() > 0);
        }
    }
    a_len <= b_len
}

/// A copy of `paths` holding the same strings, as a multiset, in
/// lexicographic order.
pub fn sort_paths(paths: &Vec<String>) -> (r: Vec<String>)
    ensures
        views_of(r@).to_multiset() == views_of(paths@).to_multiset(),
        views_sorted(views_of(r@)),
{
    let mut result: Vec<String> = Vec::new();
    let mut i: usize = 0;
    proof {
        assert(views_of(result@) =~= Seq::<Seq<char>>::empty());
        assert(views_of(paths@.take(0)) =~= Seq::<Seq<char>>::empty());
    }
    while i < paths.len()
        invariant
            i <= paths@.len(),
            views_of(result@).to_multiset() == views_of(paths@.take(i as int)).to_multiset(),
            views_sorted(views_of(result@)),
        decreases paths@.len() - i,
    {
        let p = paths[i].clone();
        let mut pos: usize = 0;
        while pos < result.len() && str_le(&result[pos], &p)
            invariant
                pos <= result@.len(),
                forall|j: int| 0 <= j < pos ==> spec_str_le(result@[j]@, p@),
            decreases result@.len() - pos,
        {
            pos = pos + 1;
        }
        let ghost old_result = result@;
        result.insert(pos, p);
        proof {
            let old_views = views_of(old_result);
            let new_views = views_of(result@);
            assert(new_views =~= old_views.insert(pos as int, p@));
            to_multiset_insert(old_views, pos as int, p@);
            assert(views_of(paths@.take(i + 1)) =~= views_of(paths@.take(i as int)).push(
                paths@[i as int]@,
            ));
            assert(views_of(paths@.take(i + 1)).to_multiset() == views_of(
                paths@.take(i as int),
            ).to_multiset().insert(p@)) by {
                vstd::seq_lib::to_multiset_build(views_of(paths@.take(i as int)), p@);
            }
            if pos < old_views.len() {
                lemma_str_le_connected(old_views[pos as int], p@);
            }
            assert forall|x: int, y: int|
                0 <= x < y < new_views.len() implies spec_str_le(
                new_views[x],
                new_views[y],
            ) by {
                if x < pos && y > pos {
                    assert(spec_str_le(old_views[x], old_views[y - 1]));
                } else if y == pos && x < pos {
                    assert(spec_str_le(old_views[x], p@));
                } else if x == pos && y > pos {
                    assert(spec_str_le(p@, old_views[pos as int]));
                    if y - 1 > pos {
                        assert(spec_str_le(old_views[pos as int], old_views[y - 1]));
                        lemma_str_le_transitive(p@, old_views[pos as int], old_views[y - 1]);
                    }
                }
            }
        }
        i = i + 1;
    }
    proof {
        assert(paths@.take(i as int) =~= paths@);
    }
    result
}

} // verus!
