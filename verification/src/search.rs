//! Substring matching over character sequences: non-overlapping match
//! positions and their mapping to grapheme indices.

use vstd::prelude::*;
use crate::fragment::cluster_offset;

verus! {

/// `q` occurs in `s` at character position `i`.
pub open spec fn occurs_at(s: Seq<char>, q: Seq<char>, i: int) -> bool {
    &&& 0 <= i
    &&& i + q.len() <= s.len()
    &&& s.subrange(i, i + q.len() as int) == q
}

/// The non-overlapping occurrences of `q` in `s` that start within
/// `[from, to)` and end by `to`, scanning left to right: after a match
/// the scan resumes just past it (one position further for an empty
/// query, which occurs everywhere).
pub open spec fn match_starts(s: Seq<char>, q: Seq<char>, from: int, to: int) -> Seq<int>
    decreases to - from + 1,
{
    if from < 0 || to > s.len() || from + q.len() > to {
        Seq::<int>::empty()
    } else if occurs_at(s, q, from) {
        seq![from] + match_starts(
            s,
            q,
            from + (if q.len() == 0 {
                1
            } else {
                q.len() as int
            }),
            to,
        )
    } else {
        match_starts(s, q, from + 1, to)
    }
}

/// The first grapheme cluster, from index `k` on, whose start offset is
/// at or after character position `pos`.
pub open spec fn grapheme_at_or_after(cs: Seq<Seq<char>>, pos: int, k: int) -> Option<int>
    decreases cs.len() - k,
{
    if k < 0 || k >= cs.len() {
        None::<int>
    } else if cluster_offset(cs, k) >= pos {
        Some(k)
    } else {
        grapheme_at_or_after(cs, pos, k + 1)
    }
}

/// Match positions paired with the grapheme index at or after each;
/// positions past the last grapheme start are dropped.
pub open spec fn graphemed_matches(cs: Seq<Seq<char>>, ms: Seq<int>) -> Seq<(int, int)>
    decreases ms.len(),
{
    if ms.len() == 0 {
        Seq::<(int, int)>::empty()
    } else {
        let rest = graphemed_matches(cs, ms.drop_first());
        match grapheme_at_or_after(cs, ms[0], 0) {
            Some(g) => seq![(ms[0], g)] + rest,
            None => rest,
        }
    }
}

/// The vector lists exactly the pairs of `mm`.
pub open spec fn lists_matches(r: Seq<(usize, usize)>, mm: Seq<(int, int)>) -> bool {
    &&& r.len() == mm.len()
    &&& forall|i: int|
        0 <= i < r.len() ==> (#[trigger] r[i]).0 == mm[i].0 && r[i].1 == mm[i].1
}

/// Whether `q` occurs in `s` at position `i`.
pub(crate) fn occurs_check(s: &Vec<char>, q: &Vec<char>, i: usize) -> (b: bool)
    requires
        i + q@.len() <= s@.len(),
    ensures
        b == occurs_at(s@, q@, i as int),
{
    let n = q.len();
    let sn = s.len();
    let mut eq = true;
    for j in 0..n
        invariant
            n == q@.len(),
            sn == s@.len(),
            i + n <= sn,
            eq == (forall|k: int| 0 <= k < j ==> s@[i + k] == q@[k]),
    {
        if s[i + j] != q[j] {
            eq = false;
        }
    }
    proof {
        if eq {
            assert(s@.subrange(i as int, i + q@.len() as int) =~= q@);
        } else {
            assert(s@.subrange(i as int, i + q@.len() as int) != q@) by {
                let k = choose|k: int| 0 <= k < q@.len() && s@[i + k] != q@[k];
                assert(s@.subrange(i as int, i + q@.len() as int)[k] != q@[k]);
            }
        }
    }
    eq
}

} // verus!
