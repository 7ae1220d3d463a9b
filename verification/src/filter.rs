//! Case-sensitive substring matching and the visible-list filter: the
//! subsequence of host names that contain the search pattern.

use vstd::prelude::*;

verus! {

/// The pattern `pat` occurs in `text` starting at position `i`.
pub open spec fn matches_at(text: Seq<char>, pat: Seq<char>, i: int) -> bool {
    0 <= i && i + pat.len() <= text.len() && text.subrange(i, i + pat.len() as int) == pat
}

/// `pat` occurs somewhere in `text` (case-sensitive containment).
pub open spec fn contains_substr(text: Seq<char>, pat: Seq<char>) -> bool {
    exists|i: int| matches_at(text, pat, i)
}

/// The empty pattern is contained in every text.
pub proof fn lemma_empty_pat_contained(text: Seq<char>)
    ensures
        contains_substr(text, Seq::<char>::empty()),
{
    assert(text.subrange(0, 0) =~= Seq::<char>::empty());
    assert(matches_at(text, Seq::<char>::empty(), 0));
}

/// Whether `pat` occurs in `text` starting exactly at position `i`.
fn matches_at_exec(text: &Vec<char>, pat: &Vec<char>, i: usize) -> (r: bool)
    requires
        i + pat.len() <= text.len(),
    ensures
        r == matches_at(text@, pat@, i as int),
{
    let mut j: usize = 0;
    while j < pat.len()
        invariant
            i + pat.len() <= text.len(),
            0 <= j <= pat.len(),
            text@.subrange(i as int, i + j as int) =~= pat@.subrange(0, j as int),
        decreases pat.len() - j,
    {
        if text[i + j] != pat[j] {
            assert(!matches_at(text@, pat@, i as int)) by {
                if text@.subrange(i as int, i + pat@.len() as int) == pat@ {
                    assert(text@.subrange(i as int, i + pat@.len() as int)[j as int] == text@[i
                        + j as int]);
                }
            }
            return false;
        }
        assert(text@.subrange(i as int, i + (j + 1) as int) =~= pat@.subrange(0, (j + 1) as int));
        j = j + 1;
    }
    assert(pat@.subrange(0, pat@.len() as int) =~= pat@);
    assert(text@.subrange(i as int, i + pat@.len() as int) =~= pat@);
    true
}

/// `pat` occurs somewhere in `text`.
pub fn contains(text: &Vec<char>, pat: &Vec<char>) -> (r: bool)
    ensures
        r == contains_substr(text@, pat@),
{
    if pat.len() > text.len() {
        return false;
    }
    if pat.len() == 0 {
        proof {
            assert(pat@ =~= Seq::<char>::empty());
            lemma_empty_pat_contained(text@);
        }
        return true;
    }
    let mut i: usize = 0;
    let last_start: usize = text.len() - pat.len();
    while i <= last_start
        invariant
            1 <= pat.len() <= text.len(),
            last_start == text.len() - pat.len(),
            0 <= i <= last_start + 1,
            forall|k: int| 0 <= k < i ==> !matches_at(text@, pat@, k),
        decreases last_start + 1 - i,
    {
        if matches_at_exec(text, pat, i) {
            return true;
        }
        i = i + 1;
    }
    assert(forall|k: int| matches_at(text@, pat@, k) ==> 0 <= k <= last_start);
    false
}

/// Positions (in host-list order) of the names that contain `pat`.
pub open spec fn visible_indices(names: Seq<Seq<char>>, pat: Seq<char>) -> Seq<int>
    decreases names.len(),
{
    if names.len() <= 0 {
        Seq::<int>::empty()
    } else {
        let prefix = visible_indices(names.drop_last(), pat);
        if contains_substr(names.last(), pat) {
            prefix.push(names.len() - 1)
        } else {
            prefix
        }
    }
}

/// Number of visible entries under pattern `pat`.
pub open spec fn visible_count(names: Seq<Seq<char>>, pat: Seq<char>) -> int {
    visible_indices(names, pat).len() as int
}

/// The visible list is exactly the subsequence of names containing `pat`:
/// its entries are in-range positions of matching names, listed in strictly
/// increasing order, and every matching position is listed.
pub proof fn lemma_visible_is_subsequence(names: Seq<Seq<char>>, pat: Seq<char>)
    ensures
        forall|k: int|
            0 <= k < visible_indices(names, pat).len() ==> 0 <= #[trigger] visible_indices(
                names,
                pat,
            )[k] < names.len() && contains_substr(names[visible_indices(names, pat)[k]], pat),
        forall|k1: int, k2: int|
            0 <= k1 < k2 < visible_indices(names, pat).len() ==> #[trigger] visible_indices(
                names,
                pat,
            )[k1] < #[trigger] visible_indices(names, pat)[k2],
        forall|i: int|
            0 <= i < names.len() && contains_substr(#[trigger] names[i], pat)
                ==> visible_indices(names, pat).contains(i),
    decreases names.len(),
{
    if names.len() > 0 {
        lemma_visible_is_subsequence(names.drop_last(), pat);
        let prefix = visible_indices(names.drop_last(), pat);
        assert(forall|i: int| 0 <= i < names.len() - 1 ==> names.drop_last()[i] == names[i]);
        assert forall|i: int|
            0 <= i < names.len() && contains_substr(#[trigger] names[i], pat) implies
            visible_indices(names, pat).contains(i) by {
            if i < names.len() - 1 {
                assert(prefix.contains(i));
                let k = choose|k: int| 0 <= k < prefix.len() && prefix[k] == i;
                assert(visible_indices(names, pat)[k] == i);
            } else {
                assert(names.last() == names[i]);
                assert(visible_indices(names, pat).last() == i);
            }
        }
    }
}

/// An empty pattern hides nothing: the visible list is every position,
/// in order.
pub proof fn lemma_visible_full_when_unfiltered(names: Seq<Seq<char>>)
    ensures
        visible_indices(names, Seq::<char>::empty()) =~= Seq::new(names.len(), |i: int| i),
    decreases names.len(),
{
    if names.len() > 0 {
        lemma_visible_full_when_unfiltered(names.drop_last());
        lemma_empty_pat_contained(names.last());
    }
}

/// The visible positions under pattern `pat`, in host-list order.
pub fn visible(names: &Vec<Vec<char>>, pat: &Vec<char>) -> (vis: Vec<usize>)
    ensures
        vis@.len() == visible_indices(names.deep_view(), pat@).len(),
        forall|k: int|
            0 <= k < vis@.len() ==> vis@[k] as int == visible_indices(names.deep_view(), pat@)[k],
{
    let ghost nv = names.deep_view();
    let mut vis: Vec<usize> = Vec::new();
    let mut i: usize = 0;
    while i < names.len()
        invariant
            nv == names.deep_view(),
            0 <= i <= names.len(),
            nv.len() == names.len(),
            vis@.len() == visible_indices(nv.take(i as int), pat@).len(),
            forall|k: int|
                0 <= k < vis@.len() ==> vis@[k] as int == visible_indices(nv.take(i as int), pat@)[k],
        decreases names.len() - i,
    {
        let hit = contains(&names[i], pat);
        proof {
            assert(nv.take(i + 1).drop_last() =~= nv.take(i as int));
            assert(nv.take(i + 1).last() == nv[i as int]);
            assert(names[i as int]@ == nv[i as int]);
        }
        if hit {
            vis.push(i);
        }
        i = i + 1;
    }
    proof {
        assert(nv.take(names.len() as int) =~= nv);
    }
    vis
}

} // verus!
