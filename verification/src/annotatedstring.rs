//! A string decorated with half-open annotated ranges (search matches,
//! the selected match).  An edit operation shifts and clips the
//! annotations consistently with the text replacement, and the string
//! decomposes into contiguous annotated parts for rendering.

use vstd::prelude::*;
use crate::unicode::{chars_to_string, str_chars};

verus! {

/// What an annotated range means to the renderer.
#[derive(Clone, Copy, Debug, PartialEq, Eq, Structural)]
pub enum AnnotationType {
    Match,
    SelectedMatch,
}

/// A half-open character range `[start, end)` tagged with a kind.
#[derive(Clone, Copy, Debug, PartialEq, Eq, Structural)]
pub struct Annotation {
    pub annotation_type: AnnotationType,
    pub start: usize,
    pub end: usize,
}

/// One contiguous piece of an annotated string: its text and the
/// annotation kind that applies to it, if any.
pub struct AnnotatedStringPart {
    pub text: String,
    pub annotation_type: Option<AnnotationType>,
}

/// A string and its annotations.
pub struct AnnotatedString {
    string: Vec<char>,
    annotations: Vec<Annotation>,
}

pub open spec fn sat_sub_spec(a: int, b: int) -> int {
    if a - b >= 0 {
        a - b
    } else {
        0
    }
}

pub open spec fn sat_add_spec(a: int, b: int) -> int {
    if a + b <= usize::MAX {
        a + b
    } else {
        usize::MAX as int
    }
}

/// Where one annotation boundary lands after the range `[start, end)`
/// is replaced by `new_len` characters: boundaries at or past the old
/// end shift by the length difference, boundaries inside the replaced
/// range clamp to the edit boundary on their side, boundaries before
/// the start stay.
pub open spec fn spec_shift_boundary(b: int, start: int, end: int, new_len: int) -> int {
    let old_len = end - start;
    if new_len < old_len {
        let d = old_len - new_len;
        if b >= end {
            sat_sub_spec(b, d)
        } else if b >= start {
            vstd::math::max(start, sat_sub_spec(b, d))
        } else {
            b
        }
    } else {
        let d = new_len - old_len;
        if b >= end {
            sat_add_spec(b, d)
        } else if b >= start {
            vstd::math::min(end, sat_add_spec(b, d))
        } else {
            b
        }
    }
}

pub open spec fn spec_shift_annotation(a: Annotation, start: int, end: int, new_len: int) -> Annotation {
    Annotation {
        annotation_type: a.annotation_type,
        start: spec_shift_boundary(a.start as int, start, end, new_len) as usize,
        end: spec_shift_boundary(a.end as int, start, end, new_len) as usize,
    }
}

/// The annotations that survive a replacement, shifted: an annotation
/// is dropped once its range is empty or starts at or past the end of
/// the new text.
pub open spec fn spec_replace_anns(
    anns: Seq<Annotation>,
    start: int,
    end: int,
    new_len: int,
    total: int,
) -> Seq<Annotation>
    decreases anns.len(),
{
    if anns.len() == 0 {
        Seq::<Annotation>::empty()
    } else {
        let rest = spec_replace_anns(anns.drop_last(), start, end, new_len, total);
        let a = spec_shift_annotation(anns.last(), start, end, new_len);
        if a.start < a.end && (a.start as int) < total {
            rest.push(a)
        } else {
            rest
        }
    }
}

/// The text after the replacement: the end index is clamped to the
/// text length, and a start past the clamped end makes the edit a
/// no-op.
pub open spec fn spec_replace_text(text: Seq<char>, start: int, end0: int, new: Seq<char>) -> Seq<char> {
    let end = vstd::math::min(end0, text.len() as int);
    if start > end {
        text
    } else {
        text.subrange(0, start) + new + text.subrange(end, text.len() as int)
    }
}

/// Text and annotations together, as one replacement step transforms
/// them: exactly what `AnnotatedString::replace` ensures.
pub open spec fn apply_replace(
    st: (Seq<char>, Seq<Annotation>),
    start: int,
    end: int,
    new: Seq<char>,
) -> (Seq<char>, Seq<Annotation>) {
    let end_c = vstd::math::min(end, st.0.len() as int);
    let text2 = spec_replace_text(st.0, start, end, new);
    let anns2 = if start > end_c || new.len() == end_c - start {
        st.1
    } else {
        spec_replace_anns(st.1, start, end_c, new.len() as int, text2.len() as int)
    };
    (text2, anns2)
}

/// The most recently added annotation covering position `pos`.
pub open spec fn active_annotation(anns: Seq<Annotation>, pos: int) -> Option<Annotation>
    decreases anns.len(),
{
    if anns.len() == 0 {
        None::<Annotation>
    } else if anns.last().start <= pos < anns.last().end {
        Some(anns.last())
    } else {
        active_annotation(anns.drop_last(), pos)
    }
}

/// The nearest annotation start after `pos` that lies before `limit`,
/// or `limit` when there is none.
pub open spec fn next_boundary(anns: Seq<Annotation>, pos: int, limit: int) -> int
    decreases anns.len(),
{
    if anns.len() == 0 {
        limit
    } else {
        let m = next_boundary(anns.drop_last(), pos, limit);
        if pos < anns.last().start < m {
            anns.last().start as int
        } else {
            m
        }
    }
}

/// The contiguous annotated parts of the text from position `pos` on:
/// a covered position yields a part up to the active annotation's end,
/// an uncovered one a plain part up to the next annotation start.
/// (The step to at least `pos + 1` only guards termination; the
/// computed cut always lies past `pos`.)
pub open spec fn spec_parts(text: Seq<char>, anns: Seq<Annotation>, pos: int) -> Seq<
    (Seq<char>, Option<AnnotationType>),
>
    decreases text.len() - pos,
{
    if pos < 0 || pos >= text.len() {
        Seq::<(Seq<char>, Option<AnnotationType>)>::empty()
    } else {
        match active_annotation(anns, pos) {
            Some(a) => {
                let e0 = vstd::math::min(a.end as int, text.len() as int);
                let e = if pos < e0 <= text.len() {
                    e0
                } else {
                    pos + 1
                };
                seq![(text.subrange(pos, e), Some(a.annotation_type))] + spec_parts(text, anns, e)
            },
            None => {
                let e0 = next_boundary(anns, pos, text.len() as int);
                let e = if pos < e0 <= text.len() {
                    e0
                } else {
                    pos + 1
                };
                seq![(text.subrange(pos, e), None::<AnnotationType>)] + spec_parts(text, anns, e)
            },
        }
    }
}

/// An active annotation covers its position.
proof fn lemma_active_covers(anns: Seq<Annotation>, pos: int)
    ensures
        active_annotation(anns, pos) matches Some(a) ==> a.start <= pos < a.end,
    decreases anns.len(),
{
    if anns.len() > 0 && !(anns.last().start <= pos < anns.last().end) {
        lemma_active_covers(anns.drop_last(), pos);
    }
}

/// The parts vector lists exactly the pieces of `ps`.
pub open spec fn lists_parts(
    r: Seq<AnnotatedStringPart>,
    ps: Seq<(Seq<char>, Option<AnnotationType>)>,
) -> bool {
    &&& r.len() == ps.len()
    &&& forall|i: int|
        0 <= i < r.len() ==> (#[trigger] r[i]).text@ == ps[i].0 && r[i].annotation_type == ps[i].1
}

pub(crate) fn sat_sub(a: usize, b: usize) -> (r: usize)
    ensures
        r == sat_sub_spec(a as int, b as int),
{
    if a >= b {
        a - b
    } else {
        0
    }
}

pub(crate) fn sat_add(a: usize, b: usize) -> (r: usize)
    ensures
        r == sat_add_spec(a as int, b as int),
{
    if a <= usize::MAX - b {
        a + b
    } else {
        usize::MAX
    }
}

/// The characters of `v` between `a` and `b`.
fn copy_range(v: &Vec<char>, a: usize, b: usize) -> (r: Vec<char>)
    requires
        a <= b <= v@.len(),
    ensures
        r@ == v@.subrange(a as int, b as int),
{
    let mut r: Vec<char> = Vec::new();
    let mut i = a;
    while i < b
        invariant
            a <= i <= b <= v@.len(),
            r@ == v@.subrange(a as int, i as int),
        decreases b - i,
    {
        r.push(v[i]);
        i = i + 1;
        assert(r@ =~= v@.subrange(a as int, i as int));
    }
    r
}

impl AnnotatedString {
    /// The annotated string's text.
    pub closed spec fn text(self) -> Seq<char> {
        self.string@
    }

    /// The annotations, in the order they were added.
    pub closed spec fn anns(self) -> Seq<Annotation> {
        self.annotations@
    }

    /// An annotated string over `string`, with no annotations yet.
    pub fn from(string: &str) -> (r: AnnotatedString)
        ensures
            r.text() == string@,
            r.anns() == Seq::<Annotation>::empty(),
    {
        AnnotatedString { string: str_chars(string), annotations: Vec::new() }
    }

    /// An annotated string over the given characters.
    pub(crate) fn from_chars(chars: &Vec<char>) -> (r: AnnotatedString)
        ensures
            r.text() == chars@,
            r.anns() == Seq::<Annotation>::empty(),
    {
        AnnotatedString { string: copy_range(chars, 0, chars.len()), annotations: Vec::new() }
    }

    /// Tag the character range `[start, end)` with an annotation kind.
    pub fn add_annotation(
        &mut self,
        annotation_type: AnnotationType,
        start: usize,
        end: usize,
    )
        ensures
            final(self).text() == old(self).text(),
            final(self).anns() == old(self).anns().push(
                Annotation { annotation_type, start, end },
            ),
    {
        self.annotations.push(Annotation { annotation_type, start, end });
    }

    /// The text, as a string.
    pub fn to_string(&self) -> (s: String)
        ensures
            s@ == self.text(),
    {
        chars_to_string(&self.string)
    }

    /// Replace the character range `[start, end)` with `new_string`,
    /// shifting and clipping the annotations to match and dropping the
    /// ones the edit emptied.  Annotations are left untouched when the
    /// replacement does not change the text length.
    pub fn replace(&mut self, start: usize, end: usize, new_string: &str)
        ensures
            final(self).text() == spec_replace_text(
                old(self).text(),
                start as int,
                end as int,
                new_string@,
            ),
            ({
                let end_c = vstd::math::min(end as int, old(self).text().len() as int);
                if start > end_c || new_string@.len() == end_c - start {
                    final(self).anns() == old(self).anns()
                } else {
                    final(self).anns() == spec_replace_anns(
                        old(self).anns(),
                        start as int,
                        end_c,
                        new_string@.len() as int,
                        final(self).text().len() as int,
                    )
                }
            }),
    {
        let text_len = self.string.len();
        let end_c = if end < text_len {
            end
        } else {
            text_len
        };
        if start > end_c {
            return ;
        }
        let new_chars = str_chars(new_string);
        let ghost orig = self.string@;
        let mut tail = self.string.split_off(end_c);
        self.string.truncate(start);
        let mut mid = copy_range(&new_chars, 0, new_chars.len());
        self.string.append(&mut mid);
        self.string.append(&mut tail);
        assert(self.string@ =~= orig.subrange(0, start as int) + new_chars@ + orig.subrange(
            end_c as int,
            orig.len() as int,
        ));
        let replaced_len = end_c - start;
        let new_len = new_chars.len();
        if new_len == replaced_len {
            return ;
        }
        let total = self.string.len();
        let n = self.annotations.len();
        let ghost old_anns = self.annotations@;
        let mut kept: Vec<Annotation> = Vec::new();
        for idx in 0..n
            invariant
                n == old_anns.len(),
                self.annotations@ == old_anns,
                total == self.string@.len(),
                start <= end_c,
                replaced_len == end_c - start,
                new_len == new_chars@.len(),
                kept@ == spec_replace_anns(
                    old_anns.take(idx as int),
                    start as int,
                    end_c as int,
                    new_len as int,
                    total as int,
                ),
        {
            let a = self.annotations[idx];
            let new_start = Self::shift_boundary(a.start, start, end_c, replaced_len, new_len);
            let new_end = Self::shift_boundary(a.end, start, end_c, replaced_len, new_len);
            let shifted = Annotation { annotation_type: a.annotation_type, start: new_start, end: new_end };
            assert(shifted == spec_shift_annotation(
                a,
                start as int,
                end_c as int,
                new_len as int,
            ));
            if new_start < new_end && new_start < total {
                kept.push(shifted);
            }
            proof {
                assert(old_anns.take(idx + 1).drop_last() =~= old_anns.take(idx as int));
                assert(old_anns.take(idx + 1).last() == a);
            }
        }
        assert(old_anns.take(n as int) =~= old_anns);
        self.annotations = kept;
    }

    /// Where one annotation boundary lands after the edit.
    fn shift_boundary(b: usize, start: usize, end: usize, replaced_len: usize, new_len: usize) -> (r:
        usize)
        requires
            replaced_len == end - start,
            start <= end,
        ensures
            r == spec_shift_boundary(b as int, start as int, end as int, new_len as int),
    {
        if new_len < replaced_len {
            let d = replaced_len - new_len;
            if b >= end {
                sat_sub(b, d)
            } else if b >= start {
                let s = sat_sub(b, d);
                if s >= start {
                    s
                } else {
                    start
                }
            } else {
                b
            }
        } else {
            let d = new_len - replaced_len;
            if b >= end {
                sat_add(b, d)
            } else if b >= start {
                let s = sat_add(b, d);
                if s <= end {
                    s
                } else {
                    end
                }
            } else {
                b
            }
        }
    }

    /// Decompose the string into contiguous parts, each the longest run
    /// covered by the same active annotation (the most recently added
    /// one wins) or by none, in text order, covering the text exactly
    /// once.
    pub fn parts(&self) -> (r: Vec<AnnotatedStringPart>)
        ensures
            lists_parts(r@, spec_parts(self.text(), self.anns(), 0)),
    {
        let ghost text = self.text();
        let ghost anns = self.anns();
        let ghost full = spec_parts(text, anns, 0);
        let mut r: Vec<AnnotatedStringPart> = Vec::new();
        let ghost done = Seq::<(Seq<char>, Option<AnnotationType>)>::empty();
        let len = self.string.len();
        let mut pos: usize = 0;
        while pos < len
            invariant
                text == self.text(),
                anns == self.anns(),
                len == text.len(),
                pos <= len,
                lists_parts(r@, done),
                full == done + spec_parts(text, anns, pos as int),
            decreases len - pos,
        {
            let n = self.annotations.len();
            let mut active: Option<Annotation> = None;
            for idx in 0..n
                invariant
                    n == anns.len(),
                    anns == self.anns(),
                    active == active_annotation(anns.take(idx as int), pos as int),
            {
                let a = self.annotations[idx];
                if a.start <= pos && pos < a.end {
                    active = Some(a);
                }
                proof {
                    assert(anns.take(idx + 1).drop_last() =~= anns.take(idx as int));
                    assert(anns.take(idx + 1).last() == a);
                }
            }
            assert(anns.take(n as int) =~= anns);
            let cut: usize;
            let kind: Option<AnnotationType>;
            match active {
                Some(a) => {
                    proof {
                        lemma_active_covers(anns, pos as int);
                    }
                    cut = if a.end < len {
                        a.end
                    } else {
                        len
                    };
                    kind = Some(a.annotation_type);
                    assert(cut > pos);
                },
                None => {
                    let mut e = len;
                    for idx in 0..n
                        invariant
                            n == anns.len(),
                            anns == self.anns(),
                            pos < len == text.len(),
                            pos < e <= len,
                            e == next_boundary(anns.take(idx as int), pos as int, len as int),
                    {
                        let a = self.annotations[idx];
                        if a.start > pos && a.start < e {
                            e = a.start;
                        }
                        proof {
                            assert(anns.take(idx + 1).drop_last() =~= anns.take(idx as int));
                            assert(anns.take(idx + 1).last() == a);
                        }
                    }
                    assert(anns.take(n as int) =~= anns);
                    cut = e;
                    kind = None;
                },
            }
            let piece = copy_range(&self.string, pos, cut);
            r.push(AnnotatedStringPart { text: chars_to_string(&piece), annotation_type: kind });
            proof {
                let step = seq![(text.subrange(pos as int, cut as int), kind)];
                assert(spec_parts(text, anns, pos as int) == step + spec_parts(
                    text,
                    anns,
                    cut as int,
                ));
                assert((done + step) + spec_parts(text, anns, cut as int) =~= done + (step
                    + spec_parts(text, anns, cut as int)));
                done = done + step;
            }
            pos = cut;
        }
        assert(spec_parts(text, anns, pos as int) =~= Seq::<(Seq<char>, Option<AnnotationType>)>::empty());
        assert(lists_parts(r@, full));
        r
    }
}

impl Default for AnnotatedString {
    /// An empty annotated string.
    fn default() -> (r: AnnotatedString)
        ensures
            r.text() == Seq::<char>::empty(),
            r.anns() == Seq::<Annotation>::empty(),
    {
        let r = AnnotatedString { string: Vec::new(), annotations: Vec::new() };
        assert(r.text() =~= Seq::<char>::empty());
        assert(r.anns() =~= Seq::<Annotation>::empty());
        r
    }
}

} // verus!
