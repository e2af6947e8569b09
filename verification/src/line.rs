//! A grapheme-segmented line of text: a character sequence together
//! with the derived per-grapheme render metadata, recomputed wholesale
//! whenever the line mutates.

use vstd::prelude::*;
use crate::annotatedstring::{
    apply_replace, sat_add_spec, sat_sub_spec, AnnotatedString, Annotation, AnnotationType,
};
use crate::fragment::{
    cluster_offset, cluster_replacement, cluster_width, fragment_matches, fragments_match,
    lemma_cluster_content, lemma_cluster_offset_nondecreasing, lemma_cluster_offset_total,
    GraphemeWidth, TextFragment,
};
use crate::search::{
    grapheme_at_or_after, graphemed_matches, lists_matches, match_starts, occurs_check,
};
use crate::unicode::{
    char_is_control, char_is_whitespace, chars_to_string, grapheme_clusters, is_whitespace_char,
    measure_width, split_graphemes, str_chars,
};

verus! {

/// Sum of the rendered widths of the first `n` grapheme clusters.
pub open spec fn width_sum(cs: Seq<Seq<char>>, n: int) -> nat
    decreases n,
{
    if n <= 0 {
        0
    } else {
        width_sum(cs, n - 1) + if n - 1 < cs.len() {
            cluster_width(cs[n - 1]).spec_columns()
        } else {
            0
        }
    }
}

/// A line of text and its derived fragment index.
pub struct Line {
    string: Vec<char>,
    fragments: Vec<TextFragment>,
}

impl View for Line {
    type V = Seq<char>;

    closed spec fn view(&self) -> Seq<char> {
        self.string@
    }
}

impl Line {
    /// The grapheme clusters of this line's text.
    pub open spec fn clusters(self) -> Seq<Seq<char>> {
        grapheme_clusters(self@)
    }

    pub open spec fn spec_grapheme_count(self) -> nat {
        self.clusters().len()
    }

    /// Character offset at which grapheme cluster `i` starts.
    pub open spec fn grapheme_start(self, i: int) -> int {
        cluster_offset(self.clusters(), i)
    }

    /// The fragment index mirrors the segmentation of the current text:
    /// the clusters partition the text and the fragments carry their
    /// derived metadata.
    pub closed spec fn wf(self) -> bool {
        &&& self.clusters().flatten() == self@
        &&& forall|i: int|
            0 <= i < self.clusters().len() ==> (#[trigger] self.clusters()[i]).len() > 0
        &&& fragments_match(self.fragments@, self.clusters())
    }

    /// A well-formed line's cluster offsets stay within its text, and
    /// the offset past the last cluster is the text length.
    pub proof fn lemma_wf_offsets(self)
        requires
            self.wf(),
        ensures
            cluster_offset(self.clusters(), self.spec_grapheme_count() as int) == self@.len(),
            forall|i: int, j: int|
                0 <= i <= j ==> cluster_offset(self.clusters(), i) <= cluster_offset(
                    self.clusters(),
                    j,
                ),
    {
        lemma_cluster_offset_total(self.clusters());
        assert forall|i: int, j: int| 0 <= i <= j implies cluster_offset(self.clusters(), i)
            <= cluster_offset(self.clusters(), j) by {
            lemma_cluster_offset_nondecreasing(self.clusters(), i, j);
        }
    }

    /// A well-formed line has graphemes exactly when it has characters.
    pub proof fn lemma_wf_count_empty(self)
        requires
            self.wf(),
        ensures
            (self.spec_grapheme_count() == 0) <==> (self@.len() == 0),
    {
        self.lemma_wf_offsets();
        if self.spec_grapheme_count() > 0 {
            lemma_cluster_content(self.clusters(), 0);
            lemma_cluster_offset_nondecreasing(
                self.clusters(),
                1,
                self.spec_grapheme_count() as int,
            );
        }
    }

    /// Derive a line from its characters, recomputing the fragment
    /// index.
    fn rebuild(string: Vec<char>) -> (l: Line)
        ensures
            l.wf(),
            l@ == string@,
    {
        let s = chars_to_string(&string);
        let clusters = split_graphemes(&s);
        let ghost cs = grapheme_clusters(string@);
        proof {
            assert(clusters.deep_view() == cs);
            lemma_cluster_offset_total(cs);
        }
        let total = string.len();
        let mut fragments: Vec<TextFragment> = Vec::new();
        let mut offset: usize = 0;
        let n = clusters.len();
        for i in 0..n
            invariant
                n == clusters.len(),
                clusters.deep_view() == cs,
                cs.flatten() == string@,
                total == string@.len(),
                cluster_offset(cs, cs.len() as int) == string@.len(),
                fragments@.len() == i,
                forall|k: int|
                    0 <= k < i ==> fragment_matches(#[trigger] fragments@[k], cs, k),
                offset == cluster_offset(cs, i as int),
        {
            assert(clusters@[i as int].deep_view() == cs[i as int]);
            let cl: &String = &clusters[i];
            let cl_chars = str_chars(cl.as_str());
            let w = measure_width(cl.as_str());
            let ghost g = cs[i as int];
            let mut all_ws = true;
            let m = cl_chars.len();
            for j in 0..m
                invariant
                    m == cl_chars.len(),
                    cl_chars@ == g,
                    all_ws == (forall|k: int|
                        0 <= k < j ==> is_whitespace_char(#[trigger] cl_chars@[k])),
            {
                if !char_is_whitespace(cl_chars[j]) {
                    all_ws = false;
                }
            }
            let replacement: Option<char> = if m == 1 && cl_chars[0] == ' ' {
                None
            } else if m == 1 && cl_chars[0] == '\t' {
                Some(' ')
            } else if w > 0 && all_ws {
                Some('\u{2423}')
            } else if w == 0 {
                if m == 1 && char_is_control(cl_chars[0]) {
                    Some('\u{25af}')
                } else {
                    Some('\u{00b7}')
                }
            } else {
                None
            };
            assert(replacement == cluster_replacement(cs[i as int]));
            let rendered_width = match replacement {
                Some(_) => GraphemeWidth::Half,
                None => if w <= 1 {
                    GraphemeWidth::Half
                } else {
                    GraphemeWidth::Full
                },
            };
            assert(rendered_width == cluster_width(cs[i as int]));
            proof {
                lemma_cluster_content(cs, i as int);
                lemma_cluster_offset_nondecreasing(cs, i as int + 1, cs.len() as int);
            }
            fragments.push(
                TextFragment { start: offset, len: m, rendered_width, replacement },
            );
            offset = offset + m;
        }
        assert(fragments_match(fragments@, cs));
        Line { string, fragments }
    }

    /// Build a line from a string slice.
    pub fn from(s: &str) -> (l: Line)
        ensures
            l.wf(),
            l@ == s@,
    {
        Line::rebuild(str_chars(s))
    }

    /// The number of grapheme clusters in the line.  An index equal to
    /// this count denotes the append position.
    pub fn grapheme_count(&self) -> (n: usize)
        requires
            self.wf(),
        ensures
            n == self.spec_grapheme_count(),
    {
        self.fragments.len()
    }

    /// The line's text, as a string.
    pub fn content(&self) -> (s: String)
        ensures
            s@ == self@,
    {
        chars_to_string(&self.string)
    }

    pub fn is_empty(&self) -> (b: bool)
        ensures
            b == (self@.len() == 0),
    {
        self.string.len() == 0
    }

    /// Rendered width of the first `grapheme_index` graphemes, saturating
    /// at the machine limit.
    pub fn width_until(&self, grapheme_index: usize) -> (w: usize)
        requires
            self.wf(),
        ensures
            w == vstd::math::min(
                width_sum(self.clusters(), grapheme_index as int) as int,
                usize::MAX as int,
            ),
    {
        let ghost cs = self.clusters();
        let count = self.fragments.len();
        let upto = if grapheme_index < count {
            grapheme_index
        } else {
            count
        };
        let mut w: usize = 0;
        for i in 0..upto
            invariant
                upto <= self.fragments@.len(),
                self.wf(),
                cs == self.clusters(),
                w == vstd::math::min(width_sum(cs, i as int) as int, usize::MAX as int),
        {
            let c = self.fragments[i].columns_of();
            assert(self.fragments@[i as int].rendered_width == cluster_width(cs[i as int]));
            if w > usize::MAX - c {
                w = usize::MAX;
            } else {
                w = w + c;
            }
        }
        if upto < grapheme_index {
            proof {
                lemma_width_sum_stops(cs, grapheme_index as int);
            }
        }
        w
    }

    /// Rendered width of the whole line, saturating at the machine
    /// limit.
    pub fn width(&self) -> (w: usize)
        requires
            self.wf(),
        ensures
            w == vstd::math::min(
                width_sum(self.clusters(), self.spec_grapheme_count() as int) as int,
                usize::MAX as int,
            ),
    {
        let n = self.grapheme_count();
        self.width_until(n)
    }
}

impl TextFragment {
    pub fn columns_of(&self) -> (c: usize)
        ensures
            c == self.rendered_width.spec_columns(),
    {
        self.rendered_width.columns()
    }
}

/// Width sums do not grow past the cluster count.
proof fn lemma_width_sum_stops(cs: Seq<Seq<char>>, n: int)
    requires
        n >= cs.len(),
    ensures
        width_sum(cs, n) == width_sum(cs, cs.len() as int),
    decreases n,
{
    if n > cs.len() {
        lemma_width_sum_stops(cs, n - 1);
    }
}

impl Line {
    /// Character offset where an insertion at grapheme index `at`
    /// lands: the start of that grapheme, or the end of the line when
    /// `at` is at or past the grapheme count.
    pub open spec fn spec_insert_offset(self, at: int) -> int {
        if 0 <= at < self.spec_grapheme_count() {
            self.grapheme_start(at)
        } else {
            self@.len() as int
        }
    }

    /// The text after removing the grapheme at index `at` (unchanged
    /// when `at` is out of range).
    pub open spec fn spec_remove(self, at: int) -> Seq<char> {
        if 0 <= at < self.spec_grapheme_count() {
            self@.subrange(0, self.grapheme_start(at)) + self@.subrange(
                self.grapheme_start(at + 1),
                self@.len() as int,
            )
        } else {
            self@
        }
    }

    /// The texts kept and returned by a split at grapheme index `at`:
    /// out-of-range indices split off nothing.
    pub open spec fn spec_split(self, at: int) -> (Seq<char>, Seq<char>) {
        if 0 <= at < self.spec_grapheme_count() {
            (
                self@.subrange(0, self.grapheme_start(at)),
                self@.subrange(self.grapheme_start(at), self@.len() as int),
            )
        } else {
            (self@, Seq::<char>::empty())
        }
    }

    /// Insert a character before the grapheme at index `at`; at or past
    /// the grapheme count the character is appended.
    pub fn insert_char(&mut self, character: char, at: usize)
        requires
            old(self).wf(),
        ensures
            final(self).wf(),
            final(self)@ == old(self)@.insert(old(self).spec_insert_offset(at as int), character),
    {
        let offset = if at < self.fragments.len() {
            let o = self.fragments[at].start;
            proof {
                self.lemma_wf_offsets();
            }
            o
        } else {
            self.string.len()
        };
        let mut string: Vec<char> = Vec::new();
        core::mem::swap(&mut string, &mut self.string);
        string.insert(offset, character);
        *self = Line::rebuild(string);
    }

    /// Append a character at the end of the line.
    pub fn append_char(&mut self, character: char)
        requires
            old(self).wf(),
        ensures
            final(self).wf(),
            final(self)@ == old(self)@.push(character),
    {
        let n = self.grapheme_count();
        proof {
            self.lemma_wf_offsets();
        }
        self.insert_char(character, n);
        assert(old(self)@.insert(old(self)@.len() as int, character) =~= old(self)@.push(
            character,
        ));
    }

    /// Remove the grapheme at index `at`; out-of-range indices are
    /// absorbed as no-ops.
    pub fn remove_char(&mut self, at: usize)
        requires
            old(self).wf(),
        ensures
            final(self).wf(),
            final(self)@ == old(self).spec_remove(at as int),
    {
        if at < self.fragments.len() {
            let start = self.fragments[at].start;
            let len = self.fragments[at].len;
            proof {
                lemma_cluster_content(self.clusters(), at as int);
                lemma_cluster_offset_nondecreasing(
                    self.clusters(),
                    at as int + 1,
                    self.spec_grapheme_count() as int,
                );
                self.lemma_wf_offsets();
            }
            let mut string: Vec<char> = Vec::new();
            core::mem::swap(&mut string, &mut self.string);
            let ghost orig = string@;
            assert(start + len <= orig.len());
            let mut k: usize = 0;
            assert(string@ =~= orig.subrange(0, start as int) + orig.subrange(
                start as int,
                orig.len() as int,
            ));
            while k < len
                invariant
                    k <= len,
                    start + len <= orig.len(),
                    string@ == orig.subrange(0, start as int) + orig.subrange(
                        start + k,
                        orig.len() as int,
                    ),
                decreases len - k,
            {
                string.remove(start);
                k = k + 1;
                assert(string@ =~= orig.subrange(0, start as int) + orig.subrange(
                    start + k,
                    orig.len() as int,
                ));
            }
            *self = Line::rebuild(string);
        }
    }

    /// Remove the last grapheme of the line, if any.
    pub fn remove_last_char(&mut self)
        requires
            old(self).wf(),
        ensures
            final(self).wf(),
            final(self)@ == old(self).spec_remove(old(self).spec_grapheme_count() as int - 1),
    {
        let n = self.grapheme_count();
        if n == 0 {
            self.remove_char(0);
        } else {
            self.remove_char(n - 1);
        }
    }

    /// Append another line's text to this one.
    pub fn append(&mut self, other: &Line)
        requires
            old(self).wf(),
        ensures
            final(self).wf(),
            final(self)@ == old(self)@ + other@,
    {
        let mut string: Vec<char> = Vec::new();
        core::mem::swap(&mut string, &mut self.string);
        let ghost orig = string@;
        let n = other.string.len();
        for i in 0..n
            invariant
                n == other.string@.len(),
                string@ == orig + other.string@.take(i as int),
        {
            string.push(other.string[i]);
            assert(string@ =~= orig + other.string@.take(i + 1));
        }
        assert(string@ =~= orig + other.string@);
        *self = Line::rebuild(string);
    }

    /// Truncate the line at grapheme index `at` and return the
    /// remainder; an out-of-range index leaves the line unchanged and
    /// returns an empty line.
    pub fn split(&mut self, at: usize) -> (rest: Line)
        requires
            old(self).wf(),
        ensures
            final(self).wf(),
            rest.wf(),
            final(self)@ == old(self).spec_split(at as int).0,
            rest@ == old(self).spec_split(at as int).1,
    {
        if at < self.fragments.len() {
            let off = self.fragments[at].start;
            proof {
                self.lemma_wf_offsets();
            }
            let mut string: Vec<char> = Vec::new();
            core::mem::swap(&mut string, &mut self.string);
            let rest_chars = string.split_off(off);
            *self = Line::rebuild(string);
            Line::rebuild(rest_chars)
        } else {
            Line::default()
        }
    }
}

impl Clone for Line {
    /// A copy with the same text and fragment index.
    fn clone(&self) -> (r: Line)
        ensures
            r@ == self@,
            self.wf() ==> r.wf(),
    {
        let mut string: Vec<char> = Vec::new();
        let n = self.string.len();
        for i in 0..n
            invariant
                n == self.string@.len(),
                string@ == self.string@.take(i as int),
        {
            string.push(self.string[i]);
            assert(string@ =~= self.string@.take(i + 1));
        }
        assert(string@ =~= self.string@);
        let mut fragments: Vec<TextFragment> = Vec::new();
        let m = self.fragments.len();
        for i in 0..m
            invariant
                m == self.fragments@.len(),
                fragments@ == self.fragments@.take(i as int),
        {
            fragments.push(self.fragments[i]);
            assert(fragments@ =~= self.fragments@.take(i + 1));
        }
        assert(fragments@ =~= self.fragments@);
        Line { string, fragments }
    }
}

impl Line {
    /// Character offset backing grapheme index `g`, mirroring the
    /// line's index conversion: index zero, an empty line, and indices
    /// at or past the grapheme count map to offset zero.
    pub open spec fn spec_char_offset_of(self, g: int) -> int {
        if g == 0 || self.spec_grapheme_count() == 0 {
            0
        } else if 0 < g < self.spec_grapheme_count() {
            self.grapheme_start(g)
        } else {
            0
        }
    }

    /// The grapheme index of the first occurrence of `q` at or after
    /// the character offset backing `from_g`; searching from the end
    /// position finds nothing.  An occurrence strictly inside the last
    /// grapheme has no grapheme at or after it and is not reported.
    pub open spec fn spec_search_next(self, q: Seq<char>, from_g: int) -> Option<int> {
        if from_g == self.spec_grapheme_count() {
            None::<int>
        } else {
            let mm = graphemed_matches(
                self.clusters(),
                match_starts(self@, q, self.spec_char_offset_of(from_g), self@.len() as int),
            );
            if mm.len() == 0 {
                None::<int>
            } else {
                Some(mm[0].1)
            }
        }
    }

    /// The grapheme index of the last non-overlapping occurrence of `q`
    /// that ends by the character offset backing `from_g`; searching
    /// from position zero finds nothing.
    pub open spec fn spec_search_previous(self, q: Seq<char>, from_g: int) -> Option<int> {
        if from_g == 0 {
            None::<int>
        } else {
            let end = if from_g == self.spec_grapheme_count() {
                self@.len() as int
            } else {
                self.spec_char_offset_of(from_g)
            };
            let mm = graphemed_matches(self.clusters(), match_starts(self@, q, 0, end));
            if mm.len() == 0 {
                None::<int>
            } else {
                Some(mm.last().1)
            }
        }
    }

    /// Character offset backing grapheme index `g`.
    fn char_offset_of(&self, g: usize) -> (r: usize)
        requires
            self.wf(),
        ensures
            r == self.spec_char_offset_of(g as int),
            r <= self@.len(),
    {
        proof {
            self.lemma_wf_offsets();
        }
        if g == 0 || self.fragments.len() == 0 {
            0
        } else if g < self.fragments.len() {
            proof {
                lemma_cluster_offset_nondecreasing(self.clusters(), 0, g as int);
            }
            self.fragments[g].start
        } else {
            0
        }
    }

    /// The first grapheme whose start offset is at or after `pos`.
    fn grapheme_after(&self, pos: usize) -> (r: Option<usize>)
        requires
            self.wf(),
        ensures
            r is Some <==> grapheme_at_or_after(self.clusters(), pos as int, 0) is Some,
            r is Some ==> Some(r->Some_0 as int) == grapheme_at_or_after(
                self.clusters(),
                pos as int,
                0,
            ),
    {
        let ghost cs = self.clusters();
        let n = self.fragments.len();
        for k in 0..n
            invariant
                n == self.fragments@.len(),
                self.wf(),
                cs == self.clusters(),
                grapheme_at_or_after(cs, pos as int, 0) == grapheme_at_or_after(
                    cs,
                    pos as int,
                    k as int,
                ),
        {
            if self.fragments[k].start >= pos {
                return Some(k);
            }
        }
        None
    }

    /// All non-overlapping occurrences of `q` within `[from, to)`,
    /// paired with their grapheme indices.
    fn match_all(&self, q: &Vec<char>, from: usize, to: usize) -> (r: Vec<(usize, usize)>)
        requires
            self.wf(),
            from <= to <= self@.len(),
        ensures
            lists_matches(
                r@,
                graphemed_matches(
                    self.clusters(),
                    match_starts(self@, q@, from as int, to as int),
                ),
            ),
    {
        let ghost s = self@;
        let ghost cs = self.clusters();
        let ghost full = graphemed_matches(cs, match_starts(s, q@, from as int, to as int));
        let mut r: Vec<(usize, usize)> = Vec::new();
        let ghost done = Seq::<(int, int)>::empty();
        if q.len() > to {
            assert(match_starts(s, q@, from as int, to as int) =~= Seq::<int>::empty());
            assert(lists_matches(r@, full));
            return r;
        }
        let bound = to - q.len();
        let mut i = from;
        let ghost mut cursor: int = from as int;
        let mut finished = i > bound;
        while !finished
            invariant
                self.wf(),
                s == self@,
                cs == self.clusters(),
                from <= to <= s.len(),
                q@.len() <= to,
                bound == to - q@.len(),
                !finished ==> cursor == i && from <= i <= bound,
                finished ==> cursor + q@.len() > to,
                lists_matches(r@, done),
                full == done + graphemed_matches(cs, match_starts(s, q@, cursor, to as int)),
            decreases to - cursor + 1,
        {
            let ghost ms_here = match_starts(s, q@, i as int, to as int);
            let step_one: bool;
            if occurs_check(&self.string, q, i) {
                let g = self.grapheme_after(i);
                let ghost step: int = if q@.len() == 0 {
                    1
                } else {
                    q@.len() as int
                };
                proof {
                    assert(ms_here == seq![i as int] + match_starts(
                        s,
                        q@,
                        i as int + step,
                        to as int,
                    ));
                    assert(ms_here.drop_first() =~= match_starts(s, q@, i as int + step, to as int));
                    cursor = cursor + step;
                }
                match g {
                    Some(gi) => {
                        r.push((i, gi));
                        proof {
                            done = done + seq![(i as int, gi as int)];
                        }
                    },
                    None => {
                    },
                }
                step_one = q.len() == 0;
            } else {
                proof {
                    assert(ms_here == match_starts(s, q@, i as int + 1, to as int));
                    cursor = cursor + 1;
                }
                step_one = true;
            }
            if step_one {
                if i == bound {
                    finished = true;
                } else {
                    i = i + 1;
                }
            } else {
                if bound - i < q.len() {
                    finished = true;
                } else {
                    i = i + q.len();
                }
            }
        }
        proof {
            assert(match_starts(s, q@, cursor, to as int) =~= Seq::<int>::empty());
        }
        assert(lists_matches(r@, full));
        r
    }

    /// Find the next occurrence of `query` at or after the grapheme
    /// index `from_grapheme_index`.
    pub fn search_next(&self, query: &str, from_grapheme_index: usize) -> (r: Option<usize>)
        requires
            self.wf(),
        ensures
            r is Some <==> self.spec_search_next(query@, from_grapheme_index as int) is Some,
            r is Some ==> Some(r->Some_0 as int) == self.spec_search_next(
                query@,
                from_grapheme_index as int,
            ),
    {
        let count = self.grapheme_count();
        if from_grapheme_index == count {
            return None;
        }
        let q = str_chars(query);
        let start = self.char_offset_of(from_grapheme_index);
        let to = self.string.len();
        let ms = self.match_all(&q, start, to);
        if ms.len() == 0 {
            None
        } else {
            Some(ms[0].1)
        }
    }

    /// Find the last non-overlapping occurrence of `query` that ends
    /// before the grapheme index `from_grapheme_index`.
    pub fn search_previous(&self, query: &str, from_grapheme_index: usize) -> (r: Option<usize>)
        requires
            self.wf(),
        ensures
            r is Some <==> self.spec_search_previous(query@, from_grapheme_index as int) is Some,
            r is Some ==> Some(r->Some_0 as int) == self.spec_search_previous(
                query@,
                from_grapheme_index as int,
            ),
    {
        if from_grapheme_index == 0 {
            return None;
        }
        let count = self.grapheme_count();
        let end = if from_grapheme_index == count {
            self.string.len()
        } else {
            self.char_offset_of(from_grapheme_index)
        };
        let q = str_chars(query);
        let ms = self.match_all(&q, 0, end);
        if ms.len() == 0 {
            None
        } else {
            Some(ms[ms.len() - 1].1)
        }
    }
}

/// The annotations marking each match, in match order: the match whose
/// grapheme index is the selected one is marked as the selected match,
/// every other one as a plain match.
pub open spec fn spec_mark_matches(mm: Seq<(int, int)>, qlen: int, selected: Option<int>) -> Seq<
    Annotation,
>
    decreases mm.len(),
{
    if mm.len() == 0 {
        Seq::<Annotation>::empty()
    } else {
        let rest = spec_mark_matches(mm.drop_last(), qlen, selected);
        let m = mm.last();
        let kind = if selected == Some(m.1) {
            AnnotationType::SelectedMatch
        } else {
            AnnotationType::Match
        };
        rest.push(
            Annotation {
                annotation_type: kind,
                start: m.0 as usize,
                end: sat_add_spec(m.0, qlen) as usize,
            },
        )
    }
}

/// The column-window clipping walk over the fragments, from the last
/// one down: `i` fragments remain and the current one ends at column
/// `fragment_start`.  A fragment wholly right of the window is cut, one
/// straddling the right edge becomes an ellipsis; the first fragment
/// wholly left of the window cuts everything up to it and stops the
/// walk, one straddling the left edge becomes an ellipsis and stops it;
/// a fragment inside the window renders as its substituted glyph, if it
/// has one.
pub open spec fn spec_visible_walk(
    cs: Seq<Seq<char>>,
    orig_len: int,
    st: (Seq<char>, Seq<Annotation>),
    i: int,
    fragment_start: int,
    rs: int,
    re: int,
) -> (Seq<char>, Seq<Annotation>)
    decreases i,
{
    if i <= 0 {
        st
    } else {
        let j = i - 1;
        let fe = fragment_start;
        let fs = sat_sub_spec(fe, cluster_width(cs[j]).spec_columns() as int);
        let off = cluster_offset(cs, j);
        let ellipsis = seq!['\u{22ef}'];
        if fs > re {
            spec_visible_walk(cs, orig_len, st, j, fs, rs, re)
        } else if fs < re && fe > re {
            spec_visible_walk(cs, orig_len, apply_replace(st, off, orig_len, ellipsis), j, fs, rs, re)
        } else if fs == re {
            spec_visible_walk(
                cs,
                orig_len,
                apply_replace(st, off, orig_len, Seq::<char>::empty()),
                j,
                fs,
                rs,
                re,
            )
        } else if fe <= rs {
            apply_replace(st, 0, off + cs[j].len(), Seq::<char>::empty())
        } else if fs < rs && fe > rs {
            apply_replace(st, 0, off + cs[j].len(), ellipsis)
        } else if fs >= rs && fe <= re {
            match cluster_replacement(cs[j]) {
                Some(c) => spec_visible_walk(
                    cs,
                    orig_len,
                    apply_replace(st, off, off + cs[j].len(), seq![c]),
                    j,
                    fs,
                    rs,
                    re,
                ),
                None => spec_visible_walk(cs, orig_len, st, j, fs, rs, re),
            }
        } else {
            spec_visible_walk(cs, orig_len, st, j, fs, rs, re)
        }
    }
}

impl Line {
    /// The text and annotations of the visible window `[rs, re)` (in
    /// columns): the line annotated with the query's matches, then
    /// clipped to the window by the fragment walk.
    pub open spec fn spec_annotated_visible(
        self,
        rs: int,
        re: int,
        query: Option<Seq<char>>,
        selected: Option<int>,
    ) -> (Seq<char>, Seq<Annotation>) {
        if rs >= re {
            (Seq::<char>::empty(), Seq::<Annotation>::empty())
        } else {
            let base = match query {
                Some(q) => if q.len() > 0 {
                    spec_mark_matches(
                        graphemed_matches(
                            self.clusters(),
                            match_starts(self@, q, 0, self@.len() as int),
                        ),
                        q.len() as int,
                        selected,
                    )
                } else {
                    Seq::<Annotation>::empty()
                },
                None => Seq::<Annotation>::empty(),
            };
            spec_visible_walk(
                self.clusters(),
                self@.len() as int,
                (self@, base),
                self.spec_grapheme_count() as int,
                vstd::math::min(
                    width_sum(self.clusters(), self.spec_grapheme_count() as int) as int,
                    usize::MAX as int,
                ),
                rs,
                re,
            )
        }
    }

    /// The annotated, display-ready form of the visible column window
    /// `[range_start, range_end)`, marking the query's matches and the
    /// selected match.
    pub fn get_annotated_visible_substr(
        &self,
        range_start: usize,
        range_end: usize,
        query: Option<&str>,
        selected_match: Option<usize>,
    ) -> (r: AnnotatedString)
        requires
            self.wf(),
        ensures
            r.text() == self.spec_annotated_visible(
                range_start as int,
                range_end as int,
                match query {
                    Some(q) => Some(q@),
                    None => None::<Seq<char>>,
                },
                match selected_match {
                    Some(g) => Some(g as int),
                    None => None::<int>,
                },
            ).0,
            r.anns() == self.spec_annotated_visible(
                range_start as int,
                range_end as int,
                match query {
                    Some(q) => Some(q@),
                    None => None::<Seq<char>>,
                },
                match selected_match {
                    Some(g) => Some(g as int),
                    None => None::<int>,
                },
            ).1,
    {
        let ghost qv = match query {
            Some(q) => Some(q@),
            None => None::<Seq<char>>,
        };
        let ghost sv = match selected_match {
            Some(g) => Some(g as int),
            None => None::<int>,
        };
        let ghost target = self.spec_annotated_visible(range_start as int, range_end as int, qv, sv);
        if range_start >= range_end {
            return AnnotatedString::default();
        }
        let mut result = AnnotatedString::from_chars(&self.string);
        match query {
            Some(q) => {
                if !q.is_empty() {
                    let qc = str_chars(q);
                    let olen = self.string.len();
                    let ms = self.match_all(&qc, 0, olen);
                    let ghost mm = graphemed_matches(
                        self.clusters(),
                        match_starts(self@, q@, 0, self@.len() as int),
                    );
                    let n = ms.len();
                    for k in 0..n
                        invariant
                            n == ms@.len(),
                            lists_matches(ms@, mm),
                            result.text() == self@,
                            qc@ == q@,
                            sv == (match selected_match {
                                Some(g) => Some(g as int),
                                None => None::<int>,
                            }),
                            result.anns() == spec_mark_matches(mm.take(k as int), q@.len() as int, sv),
                    {
                        let (start, grapheme) = ms[k];
                        assert(start == mm[k as int].0 && grapheme == mm[k as int].1);
                        let is_selected = match selected_match {
                            Some(sel) => grapheme == sel,
                            None => false,
                        };
                        let end = crate::annotatedstring::sat_add(start, qc.len());
                        if is_selected {
                            result.add_annotation(AnnotationType::SelectedMatch, start, end);
                        } else {
                            result.add_annotation(AnnotationType::Match, start, end);
                        }
                        proof {
                            assert(mm.take(k + 1).drop_last() =~= mm.take(k as int));
                            assert(mm.take(k + 1).last() == mm[k as int]);
                        }
                    }
                    proof {
                        assert(mm.take(n as int) =~= mm);
                    }
                }
            },
            None => {},
        }
        let ghost cs = self.clusters();
        let ghost olen = self@.len() as int;
        let count = self.fragments.len();
        let mut fragment_start = self.width();
        let mut i = count;
        let mut stopped = false;
        while !stopped && i > 0
            invariant
                self.wf(),
                cs == self.clusters(),
                olen == self@.len() as int,
                i <= count == self.fragments@.len(),
                range_start < range_end,
                !stopped ==> target == spec_visible_walk(
                    cs,
                    olen,
                    (result.text(), result.anns()),
                    i as int,
                    fragment_start as int,
                    range_start as int,
                    range_end as int,
                ),
                stopped ==> target == (result.text(), result.anns()),
            decreases i,
        {
            let ghost st0 = (result.text(), result.anns());
            i = i - 1;
            let frag = self.fragments[i];
            let fe = fragment_start;
            let w = frag.columns_of();
            let fs = crate::annotatedstring::sat_sub(fe, w);
            fragment_start = fs;
            let ghost off = cluster_offset(cs, i as int);
            let total_chars = self.string.len();
            assert(olen == total_chars as int);
            proof {
                assert(frag.start == off && frag.len == cs[i as int].len() && frag.replacement
                    == cluster_replacement(cs[i as int]) && frag.rendered_width == cluster_width(
                    cs[i as int],
                ));
                lemma_cluster_content(cs, i as int);
                lemma_cluster_offset_nondecreasing(cs, i as int + 1, cs.len() as int);
                lemma_cluster_offset_total(cs);
            }
            if fs > range_end {
                // wholly right of the window: already cut by earlier steps
                assert(spec_visible_walk(cs, olen, st0, i + 1, fe as int, range_start as int,
                    range_end as int) == spec_visible_walk(cs, olen, st0, i as int, fs as int,
                    range_start as int, range_end as int));
            } else if fs < range_end && fe > range_end {
                let ell = chars_to_string(&vec!['\u{22ef}']);
                assert(ell@ =~= seq!['\u{22ef}']);
                result.replace(frag.start, self.string.len(), ell.as_str());
                assert((result.text(), result.anns()) == apply_replace(st0, off, olen, seq![
                    '\u{22ef}',
                ]));
            } else if fs == range_end {
                let empty = String::new();
                result.replace(frag.start, self.string.len(), empty.as_str());
                assert((result.text(), result.anns()) == apply_replace(
                    st0,
                    off,
                    olen,
                    Seq::<char>::empty(),
                ));
            } else if fe <= range_start {
                let empty = String::new();
                let cut_end = frag.start + frag.len;
                result.replace(0, cut_end, empty.as_str());
                stopped = true;
                assert((result.text(), result.anns()) == apply_replace(
                    st0,
                    0,
                    off + cs[i as int].len(),
                    Seq::<char>::empty(),
                ));
            } else if fs < range_start && fe > range_start {
                let ell = chars_to_string(&vec!['\u{22ef}']);
                assert(ell@ =~= seq!['\u{22ef}']);
                let cut_end = frag.start + frag.len;
                result.replace(0, cut_end, ell.as_str());
                stopped = true;
                assert((result.text(), result.anns()) == apply_replace(st0, 0, off
                    + cs[i as int].len(), seq!['\u{22ef}']));
            } else if fs >= range_start && fe <= range_end {
                match frag.replacement {
                    Some(c) => {
                        let mut gv: Vec<char> = Vec::new();
                        gv.push(c);
                        assert(gv@ =~= seq![c]);
                        let glyph = chars_to_string(&gv);
                        let cut_end = frag.start + frag.len;
                        result.replace(frag.start, cut_end, glyph.as_str());
                        assert((result.text(), result.anns()) == apply_replace(st0, off, off
                            + cs[i as int].len(), seq![c]));
                    },
                    None => {},
                }
            } else {
            }
        }
        assert(result.text() == target.0 && result.anns() == target.1);
        result
    }

    /// The plain text of the visible column window
    /// `[range_start, range_end)`.
    pub fn get_visible_graphemes(&self, range_start: usize, range_end: usize) -> (r: String)
        requires
            self.wf(),
        ensures
            r@ == self.spec_annotated_visible(
                range_start as int,
                range_end as int,
                None::<Seq<char>>,
                None::<int>,
            ).0,
    {
        let annotated = self.get_annotated_visible_substr(range_start, range_end, None, None);
        annotated.to_string()
    }
}

/// Law: splitting a line at any grapheme index and appending the
/// remainder back reconstructs the original text exactly.
pub proof fn lemma_split_append_round_trip(l: Line, at: int)
    requires
        l.wf(),
    ensures
        l.spec_split(at).0 + l.spec_split(at).1 == l@,
{
    l.lemma_wf_offsets();
    if 0 <= at < l.spec_grapheme_count() {
        lemma_cluster_offset_nondecreasing(l.clusters(), 0, at);
        lemma_cluster_offset_nondecreasing(l.clusters(), at, l.spec_grapheme_count() as int);
        assert(l.spec_split(at).0 + l.spec_split(at).1 =~= l@);
    } else {
        assert(l.spec_split(at).0 + l.spec_split(at).1 =~= l@);
    }
}

/// Law: inserting a character at a grapheme index and then removing the
/// grapheme at that same index restores the original text, provided the
/// inserted character forms a grapheme cluster of its own there (a
/// combining character may instead merge with its neighbours).
pub proof fn lemma_insert_remove_round_trip(l: Line, c: char, at: int, inserted: Line)
    requires
        l.wf(),
        inserted.wf(),
        0 <= at <= l.spec_grapheme_count(),
        inserted@ == l@.insert(l.spec_insert_offset(at), c),
        inserted.clusters() == l.clusters().insert(at, seq![c]),
    ensures
        inserted.spec_remove(at) == l@,
{
    l.lemma_wf_offsets();
    inserted.lemma_wf_offsets();
    let off = l.spec_insert_offset(at);
    let cs = l.clusters();
    let cs2 = inserted.clusters();
    assert forall|j: int| 0 <= j < at implies cs2[j] == cs[j] by {
        assert(cs.insert(at, seq![c])[j] == cs[j]);
    }
    crate::fragment::lemma_cluster_offset_prefix(cs2, cs, at);
    assert(inserted.grapheme_start(at) == l.grapheme_start(at));
    if at < l.spec_grapheme_count() {
        lemma_cluster_offset_nondecreasing(cs, at, l.spec_grapheme_count() as int);
    }
    lemma_cluster_offset_nondecreasing(cs, 0, at);
    assert(inserted.grapheme_start(at) == off);
    assert(cs2[at] == seq![c]);
    assert(cs2[at].len() == 1);
    assert(inserted.grapheme_start(at + 1) == inserted.grapheme_start(at) + cs2[at].len());
    assert(inserted.grapheme_start(at + 1) == off + 1);
    assert(at < cs2.len());
    assert(inserted.spec_remove(at) == inserted@.subrange(0, off) + inserted@.subrange(
        off + 1,
        inserted@.len() as int,
    ));
    assert(inserted@.subrange(0, off) =~= l@.subrange(0, off));
    assert(inserted@.subrange(off + 1, inserted@.len() as int) =~= l@.subrange(
        off,
        l@.len() as int,
    ));
    assert(inserted.spec_remove(at) =~= l@);
}

impl Default for Line {
    /// An empty line.
    fn default() -> (l: Line)
        ensures
            l.wf(),
            l@ == Seq::<char>::empty(),
    {
        let l = Line::rebuild(Vec::new());
        assert(l@ =~= Seq::<char>::empty());
        l
    }
}

} // verus!
