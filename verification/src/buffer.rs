//! The document buffer: an ordered sequence of lines, a modified flag
//! and the file identity, with grapheme-aware mutation and cyclic
//! search across line boundaries.

use vstd::prelude::*;
use crate::line::Line;
use crate::position::Location;
use crate::unicode::{chars_to_string, str_chars};

verus! {

/// Suffix of `s` after its last `/`; the whole string when there is
/// none.
pub open spec fn base_name(s: Seq<char>) -> Seq<char>
    decreases s.len(),
{
    if s.len() == 0 {
        Seq::<char>::empty()
    } else if s.last() == '/' {
        Seq::<char>::empty()
    } else {
        base_name(s.drop_last()).push(s.last())
    }
}

/// The label a file identity displays: the path's base name, or the
/// untitled label when there is no path or the base name names no file.
pub open spec fn spec_file_label(p: Option<Seq<char>>) -> Seq<char> {
    match p {
        None => "No file open"@,
        Some(s) => {
            let b = base_name(s);
            if b.len() == 0 || b == seq!['.', '.'] {
                "No file open"@
            } else {
                b
            }
        },
    }
}

/// The identity of the file a buffer belongs to; absent for an
/// untitled buffer.
pub struct FileInfo {
    file_path: Option<String>,
}

impl FileInfo {
    pub closed spec fn spec_path(self) -> Option<Seq<char>> {
        match self.file_path {
            Some(p) => Some(p@),
            None => None,
        }
    }

    pub fn from(file_name: &str) -> (r: FileInfo)
        ensures
            r.spec_path() == Some(file_name@),
    {
        FileInfo { file_path: Some(file_name.to_owned()) }
    }

    /// The stored path, if any.
    pub fn get_path(&self) -> (r: Option<&String>)
        ensures
            r is Some <==> self.spec_path() is Some,
            r matches Some(p) ==> Some(p@) == self.spec_path(),
    {
        self.file_path.as_ref()
    }

    pub fn has_path(&self) -> (b: bool)
        ensures
            b == (self.spec_path() is Some),
    {
        self.file_path.is_some()
    }

    /// The label this identity displays.
    pub fn display_label(&self) -> (r: String)
        ensures
            r@ == spec_file_label(self.spec_path()),
    {
        match &self.file_path {
            None => untitled_label(),
            Some(p) => {
                let chars = str_chars(p.as_str());
                let n = chars.len();
                let mut slash: Option<usize> = None;
                for idx in 0..n
                    invariant
                        n == chars@.len(),
                        slash matches Some(s2) ==> s2 < idx && chars@[s2 as int] == '/' && forall|
                            k: int,
                        | s2 < k < idx ==> chars@[k] != '/',
                        slash is None ==> forall|k: int| 0 <= k < idx ==> chars@[k] != '/',
                {
                    if chars[idx] == '/' {
                        slash = Some(idx);
                    }
                }
                let start: usize = match slash {
                    Some(s2) => {
                        proof {
                            lemma_base_name_after_slash(chars@, s2 as int);
                        }
                        s2 + 1
                    },
                    None => {
                        proof {
                            lemma_base_name_plain(chars@);
                        }
                        0
                    },
                };
                assert(base_name(chars@) == chars@.subrange(start as int, n as int));
                let mut piece: Vec<char> = Vec::new();
                let mut k = start;
                while k < n
                    invariant
                        start <= k <= n == chars@.len(),
                        piece@ == chars@.subrange(start as int, k as int),
                    decreases n - k,
                {
                    piece.push(chars[k]);
                    k = k + 1;
                    assert(piece@ =~= chars@.subrange(start as int, k as int));
                }
                let is_empty = piece.len() == 0;
                let is_dots = piece.len() == 2 && {
                    let a = piece[0];
                    let b = piece[1];
                    a == '.' && b == '.'
                };
                if is_empty || is_dots {
                    proof {
                        if is_dots {
                            assert(piece@ =~= seq!['.', '.']);
                        }
                    }
                    untitled_label()
                } else {
                    proof {
                        assert(piece@ != seq!['.', '.']) by {
                            if piece@ == seq!['.', '.'] {
                                assert(piece@.len() == 2 && piece@[0] == '.' && piece@[1] == '.');
                            }
                        }
                    }
                    chars_to_string(&piece)
                }
            },
        }
    }
}

impl Default for FileInfo {
    /// No file.
    fn default() -> (r: FileInfo)
        ensures
            r.spec_path() is None,
    {
        FileInfo { file_path: None }
    }
}

fn untitled_label() -> (r: String)
    ensures
        r@ == "No file open"@,
{
    "No file open".to_owned()
}

/// When `s` has its last slash at `k`, the base name is everything
/// after it.
proof fn lemma_base_name_after_slash(s: Seq<char>, k: int)
    requires
        0 <= k < s.len(),
        s[k] == '/',
        forall|j: int| k < j < s.len() ==> s[j] != '/',
    ensures
        base_name(s) == s.subrange(k + 1, s.len() as int),
    decreases s.len(),
{
    if k == s.len() - 1 {
        assert(base_name(s) =~= s.subrange(k + 1, s.len() as int));
    } else {
        lemma_base_name_after_slash(s.drop_last(), k);
        assert(base_name(s) == base_name(s.drop_last()).push(s.last()));
        assert(base_name(s) =~= s.subrange(k + 1, s.len() as int));
    }
}

/// Without a slash, the base name is the string itself.
proof fn lemma_base_name_plain(s: Seq<char>)
    requires
        forall|j: int| 0 <= j < s.len() ==> s[j] != '/',
    ensures
        base_name(s) == s,
    decreases s.len(),
{
    if s.len() > 0 {
        lemma_base_name_plain(s.drop_last());
        assert(base_name(s) =~= s);
    } else {
        assert(base_name(s) =~= s);
    }
}

/// A piece before a line break, with one trailing carriage return
/// removed.
pub open spec fn strip_cr(p: Seq<char>) -> Seq<char> {
    if p.len() > 0 && p.last() == '\r' {
        p.drop_last()
    } else {
        p
    }
}

/// The line records of `s` from `start` on, scanning at `i`: pieces
/// split at newlines, each with a trailing carriage return stripped; a
/// final piece without a newline is kept as it stands, and a trailing
/// newline yields no extra empty record.
pub open spec fn spec_lines_from(s: Seq<char>, start: int, i: int) -> Seq<Seq<char>>
    decreases s.len() - i,
{
    if i < 0 || i >= s.len() {
        if 0 <= start < s.len() {
            seq![s.subrange(start, s.len() as int)]
        } else {
            Seq::<Seq<char>>::empty()
        }
    } else if s[i] == '\n' {
        seq![strip_cr(s.subrange(start, i))] + spec_lines_from(s, i + 1, i + 1)
    } else {
        spec_lines_from(s, start, i + 1)
    }
}

pub open spec fn spec_lines_of(s: Seq<char>) -> Seq<Seq<char>> {
    spec_lines_from(s, 0, 0)
}

/// Each line's text followed by a newline, concatenated.
pub open spec fn spec_joined(vs: Seq<Seq<char>>) -> Seq<char>
    decreases vs.len(),
{
    if vs.len() == 0 {
        Seq::<char>::empty()
    } else {
        spec_joined(vs.drop_last()) + vs.last() + seq!['\n']
    }
}

/// The document: its lines, whether it has unsaved changes, and the
/// file it belongs to.
pub struct Buffer {
    lines: Vec<Line>,
    modified: bool,
    file_info: FileInfo,
}

impl Buffer {
    pub closed spec fn spec_lines(self) -> Seq<Line> {
        self.lines@
    }

    pub closed spec fn spec_modified(self) -> bool {
        self.modified
    }

    pub closed spec fn spec_path(self) -> Option<Seq<char>> {
        self.file_info.spec_path()
    }

    /// Every line's fragment index mirrors its text.
    pub open spec fn wf(self) -> bool {
        forall|i: int| 0 <= i < self.spec_lines().len() ==> (#[trigger] self.spec_lines()[i]).wf()
    }

    pub fn height(&self) -> (h: usize)
        ensures
            h == self.spec_lines().len(),
    {
        self.lines.len()
    }

    pub fn is_empty(&self) -> (b: bool)
        ensures
            b == (self.spec_lines().len() == 0),
    {
        self.lines.len() == 0
    }

    pub fn is_file_loaded(&self) -> (b: bool)
        ensures
            b == (self.spec_path() is Some),
    {
        self.file_info.has_path()
    }

    pub fn is_modified(&self) -> (b: bool)
        ensures
            b == self.spec_modified(),
    {
        self.modified
    }

    /// The path of the file this buffer belongs to, if any.
    pub fn file_path(&self) -> (r: Option<String>)
        ensures
            r is Some <==> self.spec_path() is Some,
            r matches Some(p) ==> Some(p@) == self.spec_path(),
    {
        match self.file_info.get_path() {
            Some(p) => Some(p.clone()),
            None => None,
        }
    }

    /// The label of the file this buffer belongs to.
    pub fn file_label(&self) -> (r: String)
        ensures
            r@ == spec_file_label(self.spec_path()),
    {
        self.file_info.display_label()
    }

    /// The line at `index`.
    pub fn line_at(&self, index: usize) -> (l: &Line)
        requires
            index < self.spec_lines().len(),
        ensures
            *l == self.spec_lines()[index as int],
    {
        &self.lines[index]
    }

    /// The grapheme count of the line at `index`, or zero past the end
    /// of the document.
    pub fn grapheme_count_at(&self, index: usize) -> (n: usize)
        requires
            self.wf(),
        ensures
            n == if (index as int) < self.spec_lines().len() {
                self.spec_lines()[index as int].spec_grapheme_count() as int
            } else {
                0
            },
    {
        if index < self.lines.len() {
            self.lines[index].grapheme_count()
        } else {
            0
        }
    }

    /// A buffer holding the given text, split into line records, and
    /// belonging to the named file.
    pub fn load(file_name: &str, contents: &str) -> (b: Buffer)
        ensures
            b.wf(),
            lines_list_views(b.spec_lines(), spec_lines_of(contents@)),
            b.spec_path() == Some(file_name@),
            !b.spec_modified(),
    {
        let chars = str_chars(contents);
        let ghost full = contents@;
        let n = chars.len();
        let mut lines: Vec<Line> = Vec::new();
        let ghost done = Seq::<Seq<char>>::empty();
        let mut start: usize = 0;
        let mut i: usize = 0;
        while i < n
            invariant
                n == chars@.len(),
                chars@ == full,
                start <= i <= n,
                lines_list_views(lines@, done),
                spec_lines_of(full) == done + spec_lines_from(full, start as int, i as int),
            decreases n - i,
        {
            if chars[i] == '\n' {
                let piece_end = if i > start && chars[i - 1] == '\r' {
                    i - 1
                } else {
                    i
                };
                let piece = copy_chars(&chars, start, piece_end);
                assert(strip_cr(full.subrange(start as int, i as int)) =~= piece@);
                let line = Line::from(chars_to_string(&piece).as_str());
                lines.push(line);
                proof {
                    done = done + seq![strip_cr(full.subrange(start as int, i as int))];
                }
                start = i + 1;
                i = i + 1;
            } else {
                proof {
                    assert(spec_lines_from(full, start as int, i as int) == spec_lines_from(
                        full,
                        start as int,
                        i + 1,
                    ));
                }
                i = i + 1;
            }
        }
        if start < n {
            let piece = copy_chars(&chars, start, n);
            let line = Line::from(chars_to_string(&piece).as_str());
            lines.push(line);
            proof {
                done = done + seq![full.subrange(start as int, n as int)];
            }
        }
        Buffer { lines, modified: false, file_info: FileInfo::from(file_name) }
    }

    /// The text this buffer persists as: each line followed by a
    /// newline.
    pub fn save_content(&self) -> (r: String)
        requires
            self.wf(),
        ensures
            r@ == spec_joined(line_views(self.spec_lines())),
    {
        let ghost vs = line_views(self.spec_lines());
        let mut r = String::new();
        let n = self.lines.len();
        proof {
            assert(vs.len() == n);
        }
        for i in 0..n
            invariant
                n == self.spec_lines().len(),
                vs == line_views(self.spec_lines()),
                vs.len() == n,
                r@ == spec_joined(vs.take(i as int)),
        {
            let text = self.lines[i].content();
            r.append(text.as_str());
            r.append("\n");
            proof {
                reveal_strlit("\n");
                assert("\n"@ =~= seq!['\n']);
                assert(vs.take(i + 1).drop_last() =~= vs.take(i as int));
                assert(vs.take(i + 1).last() == vs[i as int]);
            }
        }
        proof {
            assert(vs.take(n as int) =~= vs);
        }
        r
    }

    /// Record that the buffer was persisted as it stands.
    pub fn mark_saved(&mut self)
        ensures
            final(self).spec_lines() == old(self).spec_lines(),
            final(self).spec_path() == old(self).spec_path(),
            !final(self).spec_modified(),
    {
        self.modified = false;
    }

    /// Record that the buffer was persisted under a new name.
    pub fn mark_saved_as(&mut self, file_name: &str)
        ensures
            final(self).spec_lines() == old(self).spec_lines(),
            final(self).spec_path() == Some(file_name@),
            !final(self).spec_modified(),
    {
        self.file_info = FileInfo::from(file_name);
        self.modified = false;
    }
}

/// Cyclic forward scan: try line `li` from grapheme `fg`, then each
/// following line from its start, wrapping around, for `steps` lines in
/// all.
pub open spec fn spec_scan_next(
    lines: Seq<Line>,
    q: Seq<char>,
    li: int,
    fg: int,
    steps: nat,
) -> Option<Location>
    decreases steps,
{
    if steps == 0 || lines.len() == 0 || li < 0 || li >= lines.len() {
        None::<Location>
    } else {
        match lines[li].spec_search_next(q, fg) {
            Some(g) => Some(Location { line_index: li as usize, grapheme_index: g as usize }),
            None => spec_scan_next(
                lines,
                q,
                if li + 1 == lines.len() {
                    0
                } else {
                    li + 1
                },
                0,
                (steps - 1) as nat,
            ),
        }
    }
}

/// Cyclic backward scan: try line `li` up to grapheme `fg`, then each
/// preceding line from its end, wrapping around, for `steps` lines in
/// all.
pub open spec fn spec_scan_prev(
    lines: Seq<Line>,
    q: Seq<char>,
    li: int,
    fg: int,
    steps: nat,
) -> Option<Location>
    decreases steps,
{
    if steps == 0 || lines.len() == 0 || li < 0 || li >= lines.len() {
        None::<Location>
    } else {
        match lines[li].spec_search_previous(q, fg) {
            Some(g) => Some(Location { line_index: li as usize, grapheme_index: g as usize }),
            None => {
                let nli = if li == 0 {
                    lines.len() - 1
                } else {
                    li - 1
                };
                spec_scan_prev(
                    lines,
                    q,
                    nli,
                    lines[nli].spec_grapheme_count() as int,
                    (steps - 1) as nat,
                )
            },
        }
    }
}

impl Buffer {
    /// Where a forward search from `from` lands: the first match in
    /// cyclic scan order, starting at `from` and continuing through the
    /// wraparound back to the starting line.  An empty query never
    /// matches.
    pub open spec fn spec_search_next_loc(self, q: Seq<char>, from: Location) -> Option<Location> {
        let ls = self.spec_lines();
        if q.len() == 0 || ls.len() == 0 {
            None::<Location>
        } else {
            spec_scan_next(
                ls,
                q,
                (from.line_index as int) % (ls.len() as int),
                from.grapheme_index as int,
                (ls.len() + 1) as nat,
            )
        }
    }

    /// Where a backward search from `from` lands, scanning lines in
    /// reverse with wraparound.
    pub open spec fn spec_search_prev_loc(self, q: Seq<char>, from: Location) -> Option<Location> {
        let ls = self.spec_lines();
        if q.len() == 0 || ls.len() == 0 {
            None::<Location>
        } else {
            let start = if (from.line_index as int) < ls.len() {
                from.line_index as int
            } else {
                ls.len() - 1
            };
            spec_scan_prev(ls, q, start, from.grapheme_index as int, (ls.len() + 1) as nat)
        }
    }

    /// Insert a character at a document location; a line index one past
    /// the end appends a new line, anything further is a no-op.
    pub fn insert_char(&mut self, character: char, at_where: Location)
        requires
            old(self).wf(),
        ensures
            final(self).wf(),
            final(self).spec_path() == old(self).spec_path(),
            ({
                let ls = old(self).spec_lines();
                let li = at_where.line_index as int;
                if li == ls.len() {
                    &&& final(self).spec_lines().len() == ls.len() + 1
                    &&& (forall|i: int| 0 <= i < ls.len() ==> final(self).spec_lines()[i] == ls[i])
                    &&& final(self).spec_lines().last()@ == seq![character]
                    &&& final(self).spec_modified()
                } else if li < ls.len() {
                    &&& final(self).spec_lines().len() == ls.len()
                    &&& (forall|i: int|
                        0 <= i < ls.len() && i != li ==> final(self).spec_lines()[i] == ls[i])
                    &&& final(self).spec_lines()[li]@ == ls[li]@.insert(
                        ls[li].spec_insert_offset(at_where.grapheme_index as int),
                        character,
                    )
                    &&& final(self).spec_modified()
                } else {
                    *final(self) == *old(self)
                }
            }),
    {
        let h = self.lines.len();
        if at_where.line_index == h {
            let mut l = Line::default();
            l.append_char(character);
            assert(l@ =~= seq![character]);
            self.lines.push(l);
            self.modified = true;
        } else if at_where.line_index < h {
            let mut line = self.lines.remove(at_where.line_index);
            line.insert_char(character, at_where.grapheme_index);
            self.lines.insert(at_where.line_index, line);
            self.modified = true;
            assert(forall|i: int|
                0 <= i < self.lines@.len() && i != at_where.line_index as int
                    ==> self.lines@[i] == old(self).lines@[i]);
        }
    }

    /// Split the line at the location, inserting the remainder as a new
    /// following line; a line index one past the end appends an empty
    /// line, anything further is a no-op.
    pub fn insert_line(&mut self, at_where: Location)
        requires
            old(self).wf(),
        ensures
            final(self).wf(),
            final(self).spec_path() == old(self).spec_path(),
            ({
                let ls = old(self).spec_lines();
                let li = at_where.line_index as int;
                let g = at_where.grapheme_index as int;
                if li == ls.len() {
                    &&& final(self).spec_lines().len() == ls.len() + 1
                    &&& (forall|i: int| 0 <= i < ls.len() ==> final(self).spec_lines()[i] == ls[i])
                    &&& final(self).spec_lines().last()@ == Seq::<char>::empty()
                    &&& final(self).spec_modified()
                } else if li < ls.len() {
                    &&& final(self).spec_lines().len() == ls.len() + 1
                    &&& (forall|i: int| 0 <= i < li ==> final(self).spec_lines()[i] == ls[i])
                    &&& final(self).spec_lines()[li]@ == ls[li].spec_split(g).0
                    &&& final(self).spec_lines()[li + 1]@ == ls[li].spec_split(g).1
                    &&& (forall|i: int|
                        li + 1 < i < final(self).spec_lines().len() ==> final(self).spec_lines()[i]
                            == ls[i - 1])
                    &&& final(self).spec_modified()
                } else {
                    *final(self) == *old(self)
                }
            }),
    {
        let h = self.lines.len();
        if at_where.line_index == h {
            self.lines.push(Line::default());
            self.modified = true;
        } else if at_where.line_index < h {
            let mut line = self.lines.remove(at_where.line_index);
            let new_line = line.split(at_where.grapheme_index);
            self.lines.insert(at_where.line_index, line);
            self.lines.insert(at_where.line_index + 1, new_line);
            self.modified = true;
        }
    }

    /// Delete the grapheme at the location; at the end of a line this
    /// merges the following line into it.  Anywhere else it is a no-op.
    pub fn remove_char(&mut self, at_where: Location)
        requires
            old(self).wf(),
        ensures
            final(self).wf(),
            final(self).spec_path() == old(self).spec_path(),
            ({
                let ls = old(self).spec_lines();
                let li = at_where.line_index as int;
                let g = at_where.grapheme_index as int;
                if li < ls.len() && g >= ls[li].spec_grapheme_count() && ls.len() > li + 1 {
                    &&& final(self).spec_lines().len() == ls.len() - 1
                    &&& (forall|i: int| 0 <= i < li ==> final(self).spec_lines()[i] == ls[i])
                    &&& final(self).spec_lines()[li]@ == ls[li]@ + ls[li + 1]@
                    &&& (forall|i: int|
                        li < i < final(self).spec_lines().len() ==> final(self).spec_lines()[i]
                            == ls[i + 1])
                    &&& final(self).spec_modified()
                } else if li < ls.len() && g < ls[li].spec_grapheme_count() {
                    &&& final(self).spec_lines().len() == ls.len()
                    &&& (forall|i: int|
                        0 <= i < ls.len() && i != li ==> final(self).spec_lines()[i] == ls[i])
                    &&& final(self).spec_lines()[li]@ == ls[li].spec_remove(g)
                    &&& final(self).spec_modified()
                } else {
                    *final(self) == *old(self)
                }
            }),
    {
        let h = self.lines.len();
        if at_where.line_index < h {
            let count = self.lines[at_where.line_index].grapheme_count();
            if at_where.grapheme_index >= count && h > at_where.line_index + 1 {
                let next_line = self.lines.remove(at_where.line_index + 1);
                let mut line = self.lines.remove(at_where.line_index);
                line.append(&next_line);
                self.lines.insert(at_where.line_index, line);
                self.modified = true;
            } else if at_where.grapheme_index < count {
                let mut line = self.lines.remove(at_where.line_index);
                line.remove_char(at_where.grapheme_index);
                self.lines.insert(at_where.line_index, line);
                self.modified = true;
            }
        }
    }

    /// Find the next occurrence of `query` in cyclic scan order from
    /// `from` (inclusive of the starting position, wrapping past the
    /// end back to the start).
    pub fn search_next(&self, query: &str, from: Location) -> (r: Option<Location>)
        requires
            self.wf(),
        ensures
            r == self.spec_search_next_loc(query@, from),
    {
        if query.is_empty() {
            return None;
        }
        let h = self.lines.len();
        if h == 0 {
            return None;
        }
        let ghost ls = self.spec_lines();
        let ghost target = self.spec_search_next_loc(query@, from);
        let mut li = from.line_index % h;
        match self.lines[li].search_next(query, from.grapheme_index) {
            Some(g) => {
                assert(target == Some(Location { line_index: li, grapheme_index: g }));
                return Some(Location { line_index: li, grapheme_index: g });
            },
            None => {},
        }
        assert(target == spec_scan_next(ls, query@, (if li + 1 == h { 0int } else { li as int + 1 }), 0, h as nat));
        li = if li + 1 == h {
            0
        } else {
            li + 1
        };
        for k in 0..h
            invariant
                h == ls.len(),
                ls == self.spec_lines(),
                self.wf(),
                li < h,
                target == self.spec_search_next_loc(query@, from),
                target == spec_scan_next(ls, query@, li as int, 0, (h - k) as nat),
        {
            match self.lines[li].search_next(query, 0) {
                Some(g) => {
                    assert(target == Some(Location { line_index: li, grapheme_index: g }));
                    return Some(Location { line_index: li, grapheme_index: g });
                },
                None => {},
            }
            li = if li + 1 == h {
                0
            } else {
                li + 1
            };
        }
        None
    }

    /// Find the previous occurrence of `query` in reverse cyclic scan
    /// order from `from`.
    pub fn search_previous(&self, query: &str, from: Location) -> (r: Option<Location>)
        requires
            self.wf(),
        ensures
            r == self.spec_search_prev_loc(query@, from),
    {
        if query.is_empty() {
            return None;
        }
        let h = self.lines.len();
        if h == 0 {
            return None;
        }
        let ghost ls = self.spec_lines();
        let ghost target = self.spec_search_prev_loc(query@, from);
        let mut li = if from.line_index < h {
            from.line_index
        } else {
            h - 1
        };
        match self.lines[li].search_previous(query, from.grapheme_index) {
            Some(g) => {
                assert(target == Some(Location { line_index: li, grapheme_index: g }));
                return Some(Location { line_index: li, grapheme_index: g });
            },
            None => {},
        }
        li = if li == 0 {
            h - 1
        } else {
            li - 1
        };
        for k in 0..h
            invariant
                h == ls.len(),
                ls == self.spec_lines(),
                self.wf(),
                li < h,
                target == self.spec_search_prev_loc(query@, from),
                target == spec_scan_prev(
                    ls,
                    query@,
                    li as int,
                    ls[li as int].spec_grapheme_count() as int,
                    (h - k) as nat,
                ),
        {
            let count = self.lines[li].grapheme_count();
            match self.lines[li].search_previous(query, count) {
                Some(g) => {
                    assert(target == Some(Location { line_index: li, grapheme_index: g }));
                    return Some(Location { line_index: li, grapheme_index: g });
                },
                None => {},
            }
            li = if li == 0 {
                h - 1
            } else {
                li - 1
            };
        }
        None
    }
}

/// The views of a sequence of lines.
pub open spec fn line_views(ls: Seq<Line>) -> Seq<Seq<char>> {
    ls.map_values(|l: Line| l@)
}

/// The line values carry exactly the given texts, well-formed.
pub open spec fn lines_list_views(ls: Seq<Line>, vs: Seq<Seq<char>>) -> bool {
    &&& ls.len() == vs.len()
    &&& forall|i: int| 0 <= i < ls.len() ==> (#[trigger] ls[i])@ == vs[i] && ls[i].wf()
}

/// The characters of `v` between `a` and `b`.
fn copy_chars(v: &Vec<char>, a: usize, b: usize) -> (r: Vec<char>)
    requires
        a <= b <= v@.len(),
    ensures
        r@ == v@.subrange(a as int, b as int),
{
    let mut r: Vec<char> = Vec::new();
    let mut i = a;
    while i < b
        invariant
            a <= i <= b <= v@.len(),
            r@ == v@.subrange(a as int, i as int),
        decreases b - i,
    {
        r.push(v[i]);
        i = i + 1;
        assert(r@ =~= v@.subrange(a as int, i as int));
    }
    r
}

impl Default for Buffer {
    /// An empty, untitled, unmodified buffer.
    fn default() -> (r: Buffer)
        ensures
            r.wf(),
            r.spec_lines().len() == 0,
            r.spec_path() is None,
            !r.spec_modified(),
    {
        Buffer { lines: Vec::new(), modified: false, file_info: FileInfo::default() }
    }
}

} // verus!
