//! Per-grapheme render metadata: the width class and optional
//! substituted glyph of each grapheme cluster, and the character
//! offsets of the clusters within their line.

use vstd::prelude::*;
use crate::unicode::{display_width, is_control_char, is_whitespace_char};

verus! {

/// Rendered width of one grapheme cluster, in terminal columns.
#[derive(Clone, Copy, Debug, PartialEq, Eq, Structural)]
pub enum GraphemeWidth {
    Half,
    Full,
}

impl GraphemeWidth {
    pub open spec fn spec_columns(self) -> nat {
        match self {
            GraphemeWidth::Half => 1,
            GraphemeWidth::Full => 2,
        }
    }

    pub fn columns(self) -> (c: usize)
        ensures
            c == self.spec_columns(),
    {
        match self {
            GraphemeWidth::Half => 1,
            GraphemeWidth::Full => 2,
        }
    }
}

/// Render metadata of one grapheme cluster of a line: where the cluster
/// starts (in characters), how many characters it spans, how wide it
/// renders, and the glyph substituted for it, if any.
#[derive(Clone, Copy, Debug)]
pub struct TextFragment {
    pub start: usize,
    pub len: usize,
    pub rendered_width: GraphemeWidth,
    pub replacement: Option<char>,
}

pub open spec fn all_whitespace(g: Seq<char>) -> bool {
    forall|i: int| 0 <= i < g.len() ==> is_whitespace_char(g[i])
}

/// The glyph substituted for a cluster when it renders: tabs render as a
/// space, other blank clusters as an open box marker, zero-width control
/// characters as a rectangle, other zero-width clusters as a dot.
pub open spec fn cluster_replacement(g: Seq<char>) -> Option<char> {
    if g.len() == 1 && g[0] == ' ' {
        None
    } else if g.len() == 1 && g[0] == '\t' {
        Some(' ')
    } else if display_width(g) > 0 && all_whitespace(g) {
        Some('\u{2423}')
    } else if display_width(g) == 0 {
        if g.len() == 1 && is_control_char(g[0]) {
            Some('\u{25af}')
        } else {
            Some('\u{00b7}')
        }
    } else {
        None
    }
}

/// The width class of a cluster: substituted glyphs and clusters of
/// display width zero or one take one column, the rest take two.
pub open spec fn cluster_width(g: Seq<char>) -> GraphemeWidth {
    if cluster_replacement(g) is Some {
        GraphemeWidth::Half
    } else if display_width(g) <= 1 {
        GraphemeWidth::Half
    } else {
        GraphemeWidth::Full
    }
}

/// Character offset of cluster `i`: the total length of the clusters
/// before it.
pub open spec fn cluster_offset(cs: Seq<Seq<char>>, i: int) -> int
    decreases i,
{
    if i <= 0 {
        0
    } else {
        cluster_offset(cs, i - 1) + cs[i - 1].len()
    }
}

/// Fragment `f` carries exactly the derived metadata of cluster `i`.
pub open spec fn fragment_matches(f: TextFragment, cs: Seq<Seq<char>>, i: int) -> bool {
    &&& f.start == cluster_offset(cs, i)
    &&& f.len == cs[i].len()
    &&& f.rendered_width == cluster_width(cs[i])
    &&& f.replacement == cluster_replacement(cs[i])
}

/// The fragment list carries exactly the derived metadata of the cluster
/// list.
pub open spec fn fragments_match(frags: Seq<TextFragment>, cs: Seq<Seq<char>>) -> bool {
    &&& frags.len() == cs.len()
    &&& forall|i: int| 0 <= i < cs.len() ==> fragment_matches(#[trigger] frags[i], cs, i)
}

pub proof fn lemma_cluster_offset_nondecreasing(cs: Seq<Seq<char>>, i: int, j: int)
    requires
        0 <= i <= j,
    ensures
        cluster_offset(cs, i) <= cluster_offset(cs, j),
    decreases j - i,
{
    if i < j {
        lemma_cluster_offset_nondecreasing(cs, i, j - 1);
    }
}

/// Cluster offsets only depend on the clusters before them.
pub proof fn lemma_cluster_offset_prefix(cs1: Seq<Seq<char>>, cs2: Seq<Seq<char>>, i: int)
    requires
        forall|j: int| 0 <= j < i ==> cs1[j] == cs2[j],
    ensures
        cluster_offset(cs1, i) == cluster_offset(cs2, i),
    decreases i,
{
    if i > 0 {
        lemma_cluster_offset_prefix(cs1, cs2, i - 1);
    }
}

proof fn lemma_cluster_offset_shift(cs: Seq<Seq<char>>, i: int)
    requires
        1 <= i <= cs.len(),
    ensures
        cluster_offset(cs, i) == cs.first().len() + cluster_offset(cs.drop_first(), i - 1),
    decreases i,
{
    assert(cluster_offset(cs, i) == cluster_offset(cs, i - 1) + cs[i - 1].len());
    if i == 1 {
        assert(cluster_offset(cs, 0) == 0);
        assert(cluster_offset(cs.drop_first(), 0) == 0);
        assert(cs.first() == cs[0]);
    } else {
        lemma_cluster_offset_shift(cs, i - 1);
        assert(cs.drop_first()[i - 2] == cs[i - 1]);
        assert(cluster_offset(cs.drop_first(), i - 1) == cluster_offset(cs.drop_first(), i - 2)
            + cs.drop_first()[i - 2].len());
    }
}

/// The offset just past the last cluster is the length of the whole
/// string.
pub proof fn lemma_cluster_offset_total(cs: Seq<Seq<char>>)
    ensures
        cluster_offset(cs, cs.len() as int) == cs.flatten().len(),
    decreases cs.len(),
{
    if cs.len() > 0 {
        lemma_cluster_offset_total(cs.drop_first());
        lemma_cluster_offset_shift(cs, cs.len() as int);
    }
}

/// Cluster `i` is exactly the slice of the flattened string between its
/// offset and the next cluster's offset.
pub proof fn lemma_cluster_content(cs: Seq<Seq<char>>, i: int)
    requires
        0 <= i < cs.len(),
    ensures
        cluster_offset(cs, i) + cs[i].len() == cluster_offset(cs, i + 1),
        cluster_offset(cs, i + 1) <= cs.flatten().len(),
        cs.flatten().subrange(cluster_offset(cs, i), cluster_offset(cs, i + 1)) == cs[i],
    decreases i,
{
    lemma_cluster_offset_nondecreasing(cs, i + 1, cs.len() as int);
    lemma_cluster_offset_total(cs);
    if i == 0 {
        assert(cs.flatten() == cs.first() + cs.drop_first().flatten());
        assert(cs.flatten().subrange(0, cs[0].len() as int) =~= cs[0]);
    } else {
        let rest = cs.drop_first();
        lemma_cluster_content(rest, i - 1);
        lemma_cluster_offset_shift(cs, i);
        lemma_cluster_offset_shift(cs, i + 1);
        lemma_cluster_offset_nondecreasing(rest, 0, i - 1);
        lemma_cluster_offset_nondecreasing(cs, 0, i);
        assert(cs.flatten() == cs.first() + rest.flatten());
        assert(cs.flatten().subrange(cluster_offset(cs, i), cluster_offset(cs, i + 1))
            =~= rest.flatten().subrange(cluster_offset(rest, i - 1), cluster_offset(rest, i)));
    }
}

} // verus!
