//! The cursor/viewport engine: maps the text location to a screen
//! position, scrolls the viewport, routes movement and edit commands
//! into the buffer, runs the search session, and produces the
//! display-ready content of each visible row.

use vstd::prelude::*;
use vstd::view::View as ViewTrait;
use crate::annotatedstring::{sat_add_spec, sat_sub_spec, AnnotatedString};
use crate::buffer::{spec_file_label, Buffer};
use crate::commands::{Edit, Move};
use crate::filestatus::FileStatus;
use crate::line::{width_sum, Line};
use crate::position::{Location, Position, Size};
use crate::unicode::{chars_to_string, str_chars};

verus! {

/// Which way a search step walks.
#[derive(Clone, Copy, Debug, PartialEq, Eq, Structural)]
pub enum SearchDirection {
    Forward,
    Backward,
}

/// The state of a search session: where the cursor and scroll were
/// when it began (for cancel), and the current query.
pub struct SearchInfo {
    pub previous_location: Location,
    pub previous_scroll_offset: Position,
    pub query: Option<Line>,
}

/// Grapheme count of line `li`, or zero past the end of the document.
pub open spec fn count_at(lines: Seq<Line>, li: int) -> int {
    if 0 <= li < lines.len() {
        lines[li].spec_grapheme_count() as int
    } else {
        0
    }
}

/// Clamp the grapheme index to the line it now points into.
pub open spec fn snap_grapheme(lines: Seq<Line>, loc: Location) -> Location {
    Location {
        line_index: loc.line_index,
        grapheme_index: if loc.grapheme_index as int <= count_at(lines, loc.line_index as int) {
            loc.grapheme_index
        } else {
            count_at(lines, loc.line_index as int) as usize
        },
    }
}

/// Clamp the line index to the document (one past the last line is a
/// valid append position).
pub open spec fn snap_line(lines: Seq<Line>, loc: Location) -> Location {
    Location {
        line_index: if loc.line_index as int <= lines.len() {
            loc.line_index
        } else {
            lines.len() as usize
        },
        grapheme_index: loc.grapheme_index,
    }
}

pub open spec fn moved_up(lines: Seq<Line>, loc: Location, step: int) -> Location {
    snap_grapheme(
        lines,
        Location {
            line_index: sat_sub_spec(loc.line_index as int, step) as usize,
            grapheme_index: loc.grapheme_index,
        },
    )
}

pub open spec fn moved_down(lines: Seq<Line>, loc: Location, step: int) -> Location {
    snap_line(
        lines,
        snap_grapheme(
            lines,
            Location {
                line_index: sat_add_spec(loc.line_index as int, step) as usize,
                grapheme_index: loc.grapheme_index,
            },
        ),
    )
}

pub open spec fn moved_left(lines: Seq<Line>, loc: Location) -> Location {
    if loc.grapheme_index > 0 {
        Location { line_index: loc.line_index, grapheme_index: (loc.grapheme_index - 1) as usize }
    } else if loc.line_index > 0 {
        let up = moved_up(lines, loc, 1);
        Location {
            line_index: up.line_index,
            grapheme_index: count_at(lines, up.line_index as int) as usize,
        }
    } else {
        loc
    }
}

pub open spec fn moved_right(lines: Seq<Line>, loc: Location) -> Location {
    if (loc.grapheme_index as int) < count_at(lines, loc.line_index as int) {
        Location {
            line_index: loc.line_index,
            grapheme_index: (loc.grapheme_index + 1) as usize,
        }
    } else {
        moved_down(lines, Location { line_index: loc.line_index, grapheme_index: 0 }, 1)
    }
}

/// Where a movement command leaves the cursor: vertical moves keep the
/// grapheme index as far as the new line allows, horizontal moves wrap
/// across line boundaries, page moves step by one viewport height less
/// one.
pub open spec fn moved_location(lines: Seq<Line>, size: Size, loc: Location, cmd: Move) -> Location {
    match cmd {
        Move::Up => moved_up(lines, loc, 1),
        Move::Down => moved_down(lines, loc, 1),
        Move::Left => moved_left(lines, loc),
        Move::Right => moved_right(lines, loc),
        Move::PageUp => moved_up(lines, loc, sat_sub_spec(size.height as int, 1)),
        Move::PageDown => moved_down(lines, loc, sat_sub_spec(size.height as int, 1)),
        Move::StartOfLine => Location { line_index: loc.line_index, grapheme_index: 0 },
        Move::EndOfLine => Location {
            line_index: loc.line_index,
            grapheme_index: count_at(lines, loc.line_index as int) as usize,
        },
    }
}

/// One scroll axis: the offset moves only when the target falls
/// outside the visible extent, and then exactly far enough to put the
/// target at the nearest edge.
pub open spec fn scrolled_axis(cur: int, extent: int, to: int) -> (int, bool) {
    if to < cur {
        (to, true)
    } else if to >= sat_add_spec(cur, extent) {
        (sat_add_spec(sat_sub_spec(to, extent), 1), true)
    } else {
        (cur, false)
    }
}

/// The screen position backing a text location: the rendered width up
/// to the cursor's grapheme, and the line index as the row.
pub open spec fn location_position(lines: Seq<Line>, loc: Location) -> (int, int) {
    let col = if 0 <= (loc.line_index as int) < lines.len() {
        vstd::math::min(
            width_sum(
                lines[loc.line_index as int].clusters(),
                loc.grapheme_index as int,
            ) as int,
            usize::MAX as int,
        )
    } else {
        0
    };
    (col, loc.line_index as int)
}

/// Scroll offset centered on a position: the target sits one half
/// viewport from the origin, saturating at zero.
pub open spec fn centered_scroll(size: Size, col: int, row: int) -> Position {
    Position {
        column: sat_sub_spec(col, (size.width as int + 1) / 2) as usize,
        row: sat_sub_spec(row, (size.height as int + 1) / 2) as usize,
    }
}

/// The cursor location, scroll offset and search session of a
/// document view.
pub struct View {
    buffer: Buffer,
    needs_redraw: bool,
    size: Size,
    text_location: Location,
    scroll_offset: Position,
    search_info: Option<SearchInfo>,
}

impl View {
    pub closed spec fn spec_buffer(self) -> Buffer {
        self.buffer
    }

    pub open spec fn spec_lines(self) -> Seq<Line> {
        self.spec_buffer().spec_lines()
    }

    pub closed spec fn spec_location(self) -> Location {
        self.text_location
    }

    pub closed spec fn spec_scroll(self) -> Position {
        self.scroll_offset
    }

    pub closed spec fn spec_size(self) -> Size {
        self.size
    }

    pub closed spec fn spec_needs_redraw(self) -> bool {
        self.needs_redraw
    }

    /// The current query, if a search session holds one.
    pub closed spec fn spec_query(self) -> Option<Seq<char>> {
        match self.search_info {
            Some(info) => match info.query {
                Some(q) => Some(q@),
                None => None,
            },
            None => None,
        }
    }

    pub open spec fn wf(self) -> bool {
        &&& self.spec_buffer().wf()
        &&& (match self.spec_search_session() {
            Some(info) => match info.query {
                Some(q) => q.wf(),
                None => true,
            },
            None => true,
        })
    }

    pub closed spec fn spec_search_session(self) -> Option<SearchInfo> {
        self.search_info
    }

    /// The status snapshot surfaced to the chrome widgets.
    pub fn get_current_status(&self) -> (r: FileStatus)
        ensures
            r.lines_count == self.spec_lines().len(),
            r.current_line_index == self.spec_location().line_index,
            r.modified == self.spec_buffer().spec_modified(),
            r.file_name@ == spec_file_label(self.spec_buffer().spec_path()),
    {
        FileStatus {
            lines_count: self.buffer.height(),
            current_line_index: self.text_location.line_index,
            modified: self.buffer.is_modified(),
            file_name: self.buffer.file_label(),
        }
    }

    pub fn is_file_loaded(&self) -> (b: bool)
        ensures
            b == (self.spec_buffer().spec_path() is Some),
    {
        self.buffer.is_file_loaded()
    }

    /// Replace the document with the given file's text.
    pub fn load(&mut self, file_name: &str, contents: &str)
        requires
            old(self).wf(),
        ensures
            final(self).wf(),
            final(self).spec_buffer().spec_path() == Some(file_name@),
            !final(self).spec_buffer().spec_modified(),
            crate::buffer::lines_list_views(
                final(self).spec_lines(),
                crate::buffer::spec_lines_of(contents@),
            ),
            final(self).spec_needs_redraw(),
            final(self).spec_location() == old(self).spec_location(),
            final(self).spec_scroll() == old(self).spec_scroll(),
            final(self).spec_size() == old(self).spec_size(),
            final(self).spec_search_session() == old(self).spec_search_session(),
    {
        self.buffer = Buffer::load(file_name, contents);
        self.needs_redraw = true;
    }

    /// The path of the file the document belongs to, if any.
    pub fn file_path(&self) -> (r: Option<String>)
        ensures
            r is Some <==> self.spec_buffer().spec_path() is Some,
            r matches Some(p) ==> Some(p@) == self.spec_buffer().spec_path(),
    {
        self.buffer.file_path()
    }

    /// The text the document persists as.
    pub fn save_content(&self) -> (r: String)
        requires
            self.wf(),
        ensures
            r@ == crate::buffer::spec_joined(crate::buffer::line_views(self.spec_lines())),
    {
        self.buffer.save_content()
    }

    pub fn mark_saved(&mut self)
        ensures
            final(self).spec_buffer().spec_lines() == old(self).spec_buffer().spec_lines(),
            final(self).spec_buffer().spec_path() == old(self).spec_buffer().spec_path(),
            !final(self).spec_buffer().spec_modified(),
            final(self).spec_location() == old(self).spec_location(),
            final(self).spec_scroll() == old(self).spec_scroll(),
            final(self).spec_size() == old(self).spec_size(),
            final(self).spec_needs_redraw() == old(self).spec_needs_redraw(),
            final(self).spec_search_session() == old(self).spec_search_session(),
            old(self).wf() ==> final(self).wf(),
    {
        self.buffer.mark_saved();
    }

    pub fn mark_saved_as(&mut self, file_name: &str)
        ensures
            final(self).spec_buffer().spec_lines() == old(self).spec_buffer().spec_lines(),
            final(self).spec_buffer().spec_path() == Some(file_name@),
            !final(self).spec_buffer().spec_modified(),
            final(self).spec_location() == old(self).spec_location(),
            final(self).spec_scroll() == old(self).spec_scroll(),
            final(self).spec_size() == old(self).spec_size(),
            final(self).spec_needs_redraw() == old(self).spec_needs_redraw(),
            final(self).spec_search_session() == old(self).spec_search_session(),
            old(self).wf() ==> final(self).wf(),
    {
        self.buffer.mark_saved_as(file_name);
    }

    /// The cursor's place on screen: its text position less the scroll
    /// offset, saturating at the viewport origin.
    pub fn get_cursor_position(&self) -> (p: Position)
        requires
            self.wf(),
        ensures
            ({
                let (col, row) = location_position(self.spec_lines(), self.spec_location());
                &&& p.column == sat_sub_spec(col, self.spec_scroll().column as int)
                &&& p.row == sat_sub_spec(row, self.spec_scroll().row as int)
            }),
    {
        let pos = self.text_location_to_position();
        pos.saturating_sub(self.scroll_offset)
    }

    /// The screen position backing the cursor's text location.
    fn text_location_to_position(&self) -> (p: Position)
        requires
            self.wf(),
        ensures
            p.column == location_position(self.spec_lines(), self.spec_location()).0,
            p.row == location_position(self.spec_lines(), self.spec_location()).1,
    {
        let li = self.text_location.line_index;
        let column = if li < self.buffer.height() {
            self.buffer.line_at(li).width_until(self.text_location.grapheme_index)
        } else {
            0
        };
        Position { column, row: li }
    }

    fn snap_to_valid_grapheme(&mut self)
        requires
            old(self).wf(),
        ensures
            *final(self) == (View {
                text_location: snap_grapheme(old(self).spec_lines(), old(self).spec_location()),
                ..*old(self)
            }),
    {
        let li = self.text_location.line_index;
        let g = self.text_location.grapheme_index;
        let bound = self.buffer.grapheme_count_at(li);
        self.text_location.grapheme_index = if g <= bound {
            g
        } else {
            bound
        };
    }

    fn snap_to_valid_line(&mut self)
        requires
            old(self).wf(),
        ensures
            *final(self) == (View {
                text_location: snap_line(old(self).spec_lines(), old(self).spec_location()),
                ..*old(self)
            }),
    {
        let h = self.buffer.height();
        if self.text_location.line_index > h {
            self.text_location.line_index = h;
        }
    }

    fn move_up(&mut self, step: usize)
        requires
            old(self).wf(),
        ensures
            *final(self) == (View {
                text_location: moved_up(
                    old(self).spec_lines(),
                    old(self).spec_location(),
                    step as int,
                ),
                ..*old(self)
            }),
    {
        let li = self.text_location.line_index;
        self.text_location.line_index = if li >= step {
            li - step
        } else {
            0
        };
        self.snap_to_valid_grapheme();
    }

    fn move_down(&mut self, step: usize)
        requires
            old(self).wf(),
        ensures
            *final(self) == (View {
                text_location: moved_down(
                    old(self).spec_lines(),
                    old(self).spec_location(),
                    step as int,
                ),
                ..*old(self)
            }),
    {
        let li = self.text_location.line_index;
        self.text_location.line_index = if li <= usize::MAX - step {
            li + step
        } else {
            usize::MAX
        };
        self.snap_to_valid_grapheme();
        self.snap_to_valid_line();
    }

    fn move_to_start_of_line(&mut self)
        requires
            old(self).wf(),
        ensures
            *final(self) == (View {
                text_location: Location {
                    line_index: old(self).spec_location().line_index,
                    grapheme_index: 0,
                },
                ..*old(self)
            }),
    {
        self.text_location.grapheme_index = 0;
    }

    fn move_to_end_of_line(&mut self)
        requires
            old(self).wf(),
        ensures
            *final(self) == (View {
                text_location: Location {
                    line_index: old(self).spec_location().line_index,
                    grapheme_index: count_at(
                        old(self).spec_lines(),
                        old(self).spec_location().line_index as int,
                    ) as usize,
                },
                ..*old(self)
            }),
    {
        let li = self.text_location.line_index;
        self.text_location.grapheme_index = self.buffer.grapheme_count_at(li);
    }

    fn move_left(&mut self)
        requires
            old(self).wf(),
        ensures
            *final(self) == (View {
                text_location: moved_left(old(self).spec_lines(), old(self).spec_location()),
                ..*old(self)
            }),
    {
        if self.text_location.grapheme_index > 0 {
            self.text_location.grapheme_index = self.text_location.grapheme_index - 1;
        } else if self.text_location.line_index > 0 {
            self.move_up(1);
            self.move_to_end_of_line();
        }
    }

    fn move_right(&mut self)
        requires
            old(self).wf(),
        ensures
            *final(self) == (View {
                text_location: moved_right(old(self).spec_lines(), old(self).spec_location()),
                ..*old(self)
            }),
    {
        let li = self.text_location.line_index;
        let line_width = self.buffer.grapheme_count_at(li);
        if self.text_location.grapheme_index < line_width {
            self.text_location.grapheme_index = self.text_location.grapheme_index + 1;
        } else {
            self.move_to_start_of_line();
            self.move_down(1);
        }
    }

    fn scroll_horizontally(&mut self, to_where: usize)
        requires
            old(self).wf(),
        ensures
            ({
                let (col, changed) = scrolled_axis(
                    old(self).spec_scroll().column as int,
                    old(self).spec_size().width as int,
                    to_where as int,
                );
                *final(self) == (View {
                    scroll_offset: Position { column: col as usize, ..old(self).spec_scroll() },
                    needs_redraw: old(self).spec_needs_redraw() || changed,
                    ..*old(self)
                })
            }),
    {
        let width = self.size.width;
        let col = self.scroll_offset.column;
        let edge = crate::annotatedstring::sat_add(col, width);
        if to_where < col {
            self.scroll_offset.column = to_where;
            self.needs_redraw = true;
        } else if to_where >= edge {
            let base = crate::annotatedstring::sat_sub(to_where, width);
            self.scroll_offset.column = crate::annotatedstring::sat_add(base, 1);
            self.needs_redraw = true;
        }
    }

    fn scroll_vertically(&mut self, to_where: usize)
        requires
            old(self).wf(),
        ensures
            ({
                let (row, changed) = scrolled_axis(
                    old(self).spec_scroll().row as int,
                    old(self).spec_size().height as int,
                    to_where as int,
                );
                *final(self) == (View {
                    scroll_offset: Position { row: row as usize, ..old(self).spec_scroll() },
                    needs_redraw: old(self).spec_needs_redraw() || changed,
                    ..*old(self)
                })
            }),
    {
        let height = self.size.height;
        let row = self.scroll_offset.row;
        let edge = crate::annotatedstring::sat_add(row, height);
        if to_where < row {
            self.scroll_offset.row = to_where;
            self.needs_redraw = true;
        } else if to_where >= edge {
            let base = crate::annotatedstring::sat_sub(to_where, height);
            self.scroll_offset.row = crate::annotatedstring::sat_add(base, 1);
            self.needs_redraw = true;
        }
    }

    fn scroll_text_location_into_view(&mut self)
        requires
            old(self).wf(),
        ensures
            ({
                let (col, row) = location_position(old(self).spec_lines(), old(self).spec_location());
                let (c2, ch) = scrolled_axis(
                    old(self).spec_scroll().column as int,
                    old(self).spec_size().width as int,
                    col,
                );
                let (r2, rv) = scrolled_axis(
                    old(self).spec_scroll().row as int,
                    old(self).spec_size().height as int,
                    row,
                );
                *final(self) == (View {
                    scroll_offset: Position { column: c2 as usize, row: r2 as usize },
                    needs_redraw: old(self).spec_needs_redraw() || ch || rv,
                    ..*old(self)
                })
            }),
    {
        let pos = self.text_location_to_position();
        self.scroll_horizontally(pos.column);
        self.scroll_vertically(pos.row);
    }

    /// Route a movement command: move the cursor, then scroll just far
    /// enough to keep it visible.
    pub fn handle_move_command(&mut self, command: Move)
        requires
            old(self).wf(),
        ensures
            final(self).wf(),
            ({
                let l2 = moved_location(
                    old(self).spec_lines(),
                    old(self).spec_size(),
                    old(self).spec_location(),
                    command,
                );
                let (col, row) = location_position(old(self).spec_lines(), l2);
                let (c2, ch) = scrolled_axis(
                    old(self).spec_scroll().column as int,
                    old(self).spec_size().width as int,
                    col,
                );
                let (r2, rv) = scrolled_axis(
                    old(self).spec_scroll().row as int,
                    old(self).spec_size().height as int,
                    row,
                );
                &&& final(self).spec_location() == l2
                &&& final(self).spec_scroll() == Position { column: c2 as usize, row: r2 as usize }
                &&& final(self).spec_needs_redraw() == (old(self).spec_needs_redraw() || ch || rv)
                &&& final(self).spec_buffer() == old(self).spec_buffer()
                &&& final(self).spec_size() == old(self).spec_size()
                &&& final(self).spec_search_session() == old(self).spec_search_session()
            }),
    {
        let height = self.size.height;
        match command {
            Move::Up => self.move_up(1),
            Move::Down => self.move_down(1),
            Move::Left => self.move_left(),
            Move::Right => self.move_right(),
            Move::PageUp => {
                let step = if height >= 1 {
                    height - 1
                } else {
                    0
                };
                self.move_up(step);
            },
            Move::PageDown => {
                let step = if height >= 1 {
                    height - 1
                } else {
                    0
                };
                self.move_down(step);
            },
            Move::StartOfLine => self.move_to_start_of_line(),
            Move::EndOfLine => self.move_to_end_of_line(),
        }
        self.scroll_text_location_into_view();
    }
}

/// What inserting one character leaves behind: the buffer mutated at
/// the cursor, the cursor stepped right when the line gained a
/// grapheme, the viewport following it, and a redraw pending.
pub open spec fn spec_inserted_char(pre: View, post: View, c: char) -> bool {
    let ls = pre.spec_lines();
    let li = pre.spec_location().line_index as int;
    let g = pre.spec_location().grapheme_index as int;
    let grew = count_at(post.spec_lines(), li) > count_at(ls, li);
    let l2 = if grew {
        moved_right(post.spec_lines(), pre.spec_location())
    } else {
        pre.spec_location()
    };
    let (col, row) = location_position(post.spec_lines(), l2);
    let (c2, ch) = scrolled_axis(pre.spec_scroll().column as int, pre.spec_size().width as int, col);
    let (r2, rv) = scrolled_axis(pre.spec_scroll().row as int, pre.spec_size().height as int, row);
    &&& post.spec_size() == pre.spec_size()
    &&& post.spec_search_session() == pre.spec_search_session()
    &&& post.spec_buffer().spec_path() == pre.spec_buffer().spec_path()
    &&& post.spec_needs_redraw()
    &&& post.spec_location() == l2
    &&& (grew ==> post.spec_scroll() == Position { column: c2 as usize, row: r2 as usize })
    &&& (!grew ==> post.spec_scroll() == pre.spec_scroll())
    &&& if li == ls.len() {
        &&& post.spec_lines().len() == ls.len() + 1
        &&& (forall|i: int| 0 <= i < ls.len() ==> post.spec_lines()[i] == ls[i])
        &&& post.spec_lines().last()@ == seq![c]
        &&& post.spec_buffer().spec_modified()
    } else if li < ls.len() {
        &&& post.spec_lines().len() == ls.len()
        &&& (forall|i: int| 0 <= i < ls.len() && i != li ==> post.spec_lines()[i] == ls[i])
        &&& post.spec_lines()[li]@ == ls[li]@.insert(ls[li].spec_insert_offset(g), c)
        &&& post.spec_buffer().spec_modified()
    } else {
        post.spec_buffer() == pre.spec_buffer()
    }
}

/// What inserting a line break leaves behind: the line split at the
/// cursor, the remainder inserted after it, and the cursor stepped
/// right onto it.
pub open spec fn spec_inserted_line(pre: View, post: View) -> bool {
    let ls = pre.spec_lines();
    let li = pre.spec_location().line_index as int;
    let g = pre.spec_location().grapheme_index as int;
    let l2 = moved_right(post.spec_lines(), pre.spec_location());
    let (col, row) = location_position(post.spec_lines(), l2);
    let (c2, ch) = scrolled_axis(pre.spec_scroll().column as int, pre.spec_size().width as int, col);
    let (r2, rv) = scrolled_axis(pre.spec_scroll().row as int, pre.spec_size().height as int, row);
    &&& post.spec_size() == pre.spec_size()
    &&& post.spec_search_session() == pre.spec_search_session()
    &&& post.spec_buffer().spec_path() == pre.spec_buffer().spec_path()
    &&& post.spec_needs_redraw()
    &&& post.spec_location() == l2
    &&& post.spec_scroll() == Position { column: c2 as usize, row: r2 as usize }
    &&& if li == ls.len() {
        &&& post.spec_lines().len() == ls.len() + 1
        &&& (forall|i: int| 0 <= i < ls.len() ==> post.spec_lines()[i] == ls[i])
        &&& post.spec_lines().last()@ == Seq::<char>::empty()
        &&& post.spec_buffer().spec_modified()
    } else if li < ls.len() {
        &&& post.spec_lines().len() == ls.len() + 1
        &&& (forall|i: int| 0 <= i < li ==> post.spec_lines()[i] == ls[i])
        &&& post.spec_lines()[li]@ == ls[li].spec_split(g).0
        &&& post.spec_lines()[li + 1]@ == ls[li].spec_split(g).1
        &&& (forall|i: int|
            li + 1 < i < post.spec_lines().len() ==> post.spec_lines()[i] == ls[i - 1])
        &&& post.spec_buffer().spec_modified()
    } else {
        post.spec_buffer() == pre.spec_buffer()
    }
}

/// What the buffer looks like after deleting at `at`: the grapheme
/// removed, or the following line merged in when `at` sits at the end
/// of its line.
pub open spec fn spec_removed_at(pre: Buffer, post: Buffer, at: Location) -> bool {
    let ls = pre.spec_lines();
    let li = at.line_index as int;
    let g = at.grapheme_index as int;
    if li < ls.len() && g >= ls[li].spec_grapheme_count() && ls.len() > li + 1 {
        &&& post.spec_lines().len() == ls.len() - 1
        &&& (forall|i: int| 0 <= i < li ==> post.spec_lines()[i] == ls[i])
        &&& post.spec_lines()[li]@ == ls[li]@ + ls[li + 1]@
        &&& (forall|i: int| li < i < post.spec_lines().len() ==> post.spec_lines()[i] == ls[i + 1])
        &&& post.spec_modified()
    } else if li < ls.len() && g < ls[li].spec_grapheme_count() {
        &&& post.spec_lines().len() == ls.len()
        &&& (forall|i: int| 0 <= i < ls.len() && i != li ==> post.spec_lines()[i] == ls[i])
        &&& post.spec_lines()[li]@ == ls[li].spec_remove(g)
        &&& post.spec_modified()
    } else {
        post == pre
    }
}

/// What a backspace leaves behind: a no-op at the document origin,
/// otherwise a step left (scrolling to it) followed by a forward
/// delete at the new location.
pub open spec fn spec_deleted_previous(pre: View, post: View) -> bool {
    if pre.spec_location().line_index == 0 && pre.spec_location().grapheme_index == 0 {
        post == pre
    } else {
        let l2 = moved_left(pre.spec_lines(), pre.spec_location());
        let (col, row) = location_position(pre.spec_lines(), l2);
        let (c2, ch) = scrolled_axis(
            pre.spec_scroll().column as int,
            pre.spec_size().width as int,
            col,
        );
        let (r2, rv) = scrolled_axis(
            pre.spec_scroll().row as int,
            pre.spec_size().height as int,
            row,
        );
        &&& post.spec_size() == pre.spec_size()
        &&& post.spec_search_session() == pre.spec_search_session()
        &&& post.spec_buffer().spec_path() == pre.spec_buffer().spec_path()
        &&& post.spec_needs_redraw()
        &&& post.spec_location() == l2
        &&& post.spec_scroll() == Position { column: c2 as usize, row: r2 as usize }
        &&& spec_removed_at(pre.spec_buffer(), post.spec_buffer(), l2)
    }
}

/// What a forward delete leaves behind: the deletion at the cursor,
/// which stays put.
pub open spec fn spec_deleted_next(pre: View, post: View) -> bool {
    &&& post.spec_size() == pre.spec_size()
    &&& post.spec_search_session() == pre.spec_search_session()
    &&& post.spec_buffer().spec_path() == pre.spec_buffer().spec_path()
    &&& post.spec_needs_redraw()
    &&& post.spec_location() == pre.spec_location()
    &&& post.spec_scroll() == pre.spec_scroll()
    &&& spec_removed_at(pre.spec_buffer(), post.spec_buffer(), pre.spec_location())
}

/// What an edit command leaves behind.
pub open spec fn spec_edit_applied(pre: View, post: View, cmd: Edit) -> bool {
    match cmd {
        Edit::InsertCharacter(c) => spec_inserted_char(pre, post, c),
        Edit::InsertTab => exists|v1: View, v2: View, v3: View|
            spec_inserted_char(pre, v1, ' ') && spec_inserted_char(v1, v2, ' ')
                && spec_inserted_char(v2, v3, ' ') && spec_inserted_char(v3, post, ' '),
        Edit::InsertLine => spec_inserted_line(pre, post),
        Edit::DeletePrevious => spec_deleted_previous(pre, post),
        Edit::DeleteNext => spec_deleted_next(pre, post),
    }
}

/// What one search step does: with a non-empty query, a hit moves the
/// cursor to it and centers the viewport on it; a miss, or no query,
/// changes nothing.
pub open spec fn spec_search_step(
    pre: View,
    post: View,
    from: Location,
    dir: SearchDirection,
) -> bool {
    match pre.spec_query() {
        Some(q) => if q.len() == 0 {
            post == pre
        } else {
            let hit = if dir == SearchDirection::Forward {
                pre.spec_buffer().spec_search_next_loc(q, from)
            } else {
                pre.spec_buffer().spec_search_prev_loc(q, from)
            };
            match hit {
                Some(l) => {
                    let (col, row) = location_position(pre.spec_lines(), l);
                    &&& post.spec_location() == l
                    &&& post.spec_scroll() == centered_scroll(pre.spec_size(), col, row)
                    &&& post.spec_needs_redraw()
                    &&& post.spec_buffer() == pre.spec_buffer()
                    &&& post.spec_size() == pre.spec_size()
                    &&& post.spec_search_session() == pre.spec_search_session()
                },
                None => post == pre,
            }
        },
        None => post == pre,
    }
}

impl View {
    fn insert_char_at_cursor(&mut self, character: char)
        requires
            old(self).wf(),
        ensures
            final(self).wf(),
            spec_inserted_char(*old(self), *final(self), character),
    {
        let li = self.text_location.line_index;
        let old_length = self.buffer.grapheme_count_at(li);
        self.buffer.insert_char(character, self.text_location);
        let new_length = self.buffer.grapheme_count_at(li);
        if new_length > old_length {
            self.handle_move_command(Move::Right);
        }
        self.needs_redraw = true;
    }

    fn insert_tab(&mut self)
        requires
            old(self).wf(),
        ensures
            final(self).wf(),
            spec_edit_applied(*old(self), *final(self), Edit::InsertTab),
    {
        self.insert_char_at_cursor(' ');
        let ghost v1 = *self;
        self.insert_char_at_cursor(' ');
        let ghost v2 = *self;
        self.insert_char_at_cursor(' ');
        let ghost v3 = *self;
        self.insert_char_at_cursor(' ');
        proof {
            assert(spec_inserted_char(*old(self), v1, ' ') && spec_inserted_char(v1, v2, ' ')
                && spec_inserted_char(v2, v3, ' ') && spec_inserted_char(v3, *self, ' '));
        }
    }

    fn insert_line_at_cursor(&mut self)
        requires
            old(self).wf(),
        ensures
            final(self).wf(),
            spec_inserted_line(*old(self), *final(self)),
    {
        self.buffer.insert_line(self.text_location);
        self.handle_move_command(Move::Right);
        self.needs_redraw = true;
    }

    fn delete_previous(&mut self)
        requires
            old(self).wf(),
        ensures
            final(self).wf(),
            spec_deleted_previous(*old(self), *final(self)),
    {
        if self.text_location.line_index != 0 || self.text_location.grapheme_index != 0 {
            self.handle_move_command(Move::Left);
            self.buffer.remove_char(self.text_location);
            self.needs_redraw = true;
        }
    }

    fn delete_next(&mut self)
        requires
            old(self).wf(),
        ensures
            final(self).wf(),
            spec_deleted_next(*old(self), *final(self)),
    {
        self.buffer.remove_char(self.text_location);
        self.needs_redraw = true;
    }

    /// Route an edit command into the buffer, keeping the cursor and
    /// viewport in step with the mutation.
    pub fn handle_edit_command(&mut self, command: Edit)
        requires
            old(self).wf(),
        ensures
            final(self).wf(),
            spec_edit_applied(*old(self), *final(self), command),
    {
        match command {
            Edit::InsertCharacter(character) => self.insert_char_at_cursor(character),
            Edit::InsertTab => self.insert_tab(),
            Edit::InsertLine => self.insert_line_at_cursor(),
            Edit::DeletePrevious => self.delete_previous(),
            Edit::DeleteNext => self.delete_next(),
        }
    }

    fn center_text_location(&mut self)
        requires
            old(self).wf(),
        ensures
            ({
                let (col, row) = location_position(old(self).spec_lines(), old(self).spec_location());
                *final(self) == (View {
                    scroll_offset: centered_scroll(old(self).spec_size(), col, row),
                    needs_redraw: true,
                    ..*old(self)
                })
            }),
    {
        let pos = self.text_location_to_position();
        let horizontal_mid = self.size.width / 2 + if self.size.width % 2 != 0 {
            1
        } else {
            0
        };
        let vertical_mid = self.size.height / 2 + if self.size.height % 2 != 0 {
            1
        } else {
            0
        };
        self.scroll_offset.column = crate::annotatedstring::sat_sub(pos.column, horizontal_mid);
        self.scroll_offset.row = crate::annotatedstring::sat_sub(pos.row, vertical_mid);
        self.needs_redraw = true;
    }

    /// Open a search session, remembering the cursor and scroll for a
    /// later cancel.
    pub fn enter_search(&mut self)
        requires
            old(self).wf(),
        ensures
            final(self).wf(),
            final(self).spec_search_session() == Some(
                SearchInfo {
                    previous_location: old(self).spec_location(),
                    previous_scroll_offset: old(self).spec_scroll(),
                    query: None::<Line>,
                },
            ),
            final(self).spec_buffer() == old(self).spec_buffer(),
            final(self).spec_location() == old(self).spec_location(),
            final(self).spec_scroll() == old(self).spec_scroll(),
            final(self).spec_size() == old(self).spec_size(),
            final(self).spec_needs_redraw() == old(self).spec_needs_redraw(),
    {
        self.search_info = Some(
            SearchInfo {
                previous_location: self.text_location,
                previous_scroll_offset: self.scroll_offset,
                query: None,
            },
        );
    }

    /// Close the search session, keeping the cursor at the match.
    pub fn exit_search(&mut self)
        requires
            old(self).wf(),
        ensures
            final(self).wf(),
            final(self).spec_search_session() is None,
            final(self).spec_buffer() == old(self).spec_buffer(),
            final(self).spec_location() == old(self).spec_location(),
            final(self).spec_scroll() == old(self).spec_scroll(),
            final(self).spec_size() == old(self).spec_size(),
            final(self).spec_needs_redraw(),
    {
        self.search_info = None;
        self.needs_redraw = true;
    }

    /// Cancel the search session, restoring the cursor and scroll that
    /// were saved when it opened (scrolled back into view).
    pub fn dismiss_search(&mut self)
        requires
            old(self).wf(),
        ensures
            final(self).wf(),
            final(self).spec_search_session() is None,
            final(self).spec_buffer() == old(self).spec_buffer(),
            final(self).spec_size() == old(self).spec_size(),
            final(self).spec_needs_redraw(),
            ({
                match old(self).spec_search_session() {
                    Some(info) => {
                        let (col, row) = location_position(
                            old(self).spec_lines(),
                            info.previous_location,
                        );
                        let (c2, ch) = scrolled_axis(
                            info.previous_scroll_offset.column as int,
                            old(self).spec_size().width as int,
                            col,
                        );
                        let (r2, rv) = scrolled_axis(
                            info.previous_scroll_offset.row as int,
                            old(self).spec_size().height as int,
                            row,
                        );
                        &&& final(self).spec_location() == info.previous_location
                        &&& final(self).spec_scroll() == Position {
                            column: c2 as usize,
                            row: r2 as usize,
                        }
                    },
                    None => {
                        &&& final(self).spec_location() == old(self).spec_location()
                        &&& final(self).spec_scroll() == old(self).spec_scroll()
                    },
                }
            }),
    {
        let restore: Option<(Location, Position)> = match &self.search_info {
            Some(search_info) => Some(
                (search_info.previous_location, search_info.previous_scroll_offset),
            ),
            None => None,
        };
        match restore {
            Some((loc, scroll)) => {
                self.text_location = loc;
                self.scroll_offset = scroll;
                self.scroll_text_location_into_view();
            },
            None => {},
        }
        self.search_info = None;
        self.needs_redraw = true;
    }

    /// Update the live query and re-run the search from the current
    /// cursor position.
    pub fn search(&mut self, query: &str)
        requires
            old(self).wf(),
        ensures
            final(self).wf(),
            final(self).spec_needs_redraw(),
            old(self).spec_search_session() is None ==> {
                &&& final(self).spec_search_session() is None
                &&& final(self).spec_buffer() == old(self).spec_buffer()
                &&& final(self).spec_location() == old(self).spec_location()
                &&& final(self).spec_scroll() == old(self).spec_scroll()
                &&& final(self).spec_size() == old(self).spec_size()
            },
            old(self).spec_search_session() matches Some(info) ==> {
                &&& final(self).spec_query() == Some(query@)
                &&& (match final(self).spec_search_session() {
                    Some(ni) => ni.previous_location == info.previous_location
                        && ni.previous_scroll_offset == info.previous_scroll_offset,
                    None => false,
                })
                &&& final(self).spec_buffer() == old(self).spec_buffer()
                &&& final(self).spec_size() == old(self).spec_size()
                &&& ({
                    let hit = old(self).spec_buffer().spec_search_next_loc(
                        query@,
                        old(self).spec_location(),
                    );
                    if query@.len() == 0 {
                        &&& final(self).spec_location() == old(self).spec_location()
                        &&& final(self).spec_scroll() == old(self).spec_scroll()
                    } else {
                        match hit {
                            Some(l) => {
                                let (col, row) = location_position(old(self).spec_lines(), l);
                                &&& final(self).spec_location() == l
                                &&& final(self).spec_scroll() == centered_scroll(
                                    old(self).spec_size(),
                                    col,
                                    row,
                                )
                            },
                            None => {
                                &&& final(self).spec_location() == old(self).spec_location()
                                &&& final(self).spec_scroll() == old(self).spec_scroll()
                            },
                        }
                    }
                })
            },
    {
        match &mut self.search_info {
            Some(search_info) => {
                search_info.query = Some(Line::from(query));
            },
            None => {},
        }
        let from = self.text_location;
        self.search_in_direction(from, SearchDirection::Forward);
        self.needs_redraw = true;
    }

    fn get_search_query_text(&self) -> (r: Option<String>)
        requires
            self.wf(),
        ensures
            r is Some <==> self.spec_query() is Some,
            r matches Some(s) ==> Some(s@) == self.spec_query(),
    {
        match &self.search_info {
            Some(search_info) => match &search_info.query {
                Some(q) => Some(q.content()),
                None => None,
            },
            None => None,
        }
    }

    fn search_in_direction(&mut self, from: Location, direction: SearchDirection)
        requires
            old(self).wf(),
        ensures
            final(self).wf(),
            spec_search_step(*old(self), *final(self), from, direction),
    {
        let query = self.get_search_query_text();
        match query {
            Some(q) => {
                if q.as_str().is_empty() {
                    return ;
                }
                let hit = match direction {
                    SearchDirection::Forward => self.buffer.search_next(q.as_str(), from),
                    SearchDirection::Backward => self.buffer.search_previous(q.as_str(), from),
                };
                match hit {
                    Some(location) => {
                        self.text_location = location;
                        self.center_text_location();
                    },
                    None => {},
                }
            },
            None => {},
        }
    }

    /// Step the search forward: repeat the query from just past the
    /// current match.
    pub fn search_next(&mut self)
        requires
            old(self).wf(),
        ensures
            final(self).wf(),
            ({
                let step: int = match old(self).spec_query() {
                    Some(q) => if q.len() == 0 {
                        0
                    } else {
                        1
                    },
                    None => 1,
                };
                let from = Location {
                    line_index: old(self).spec_location().line_index,
                    grapheme_index: sat_add_spec(
                        old(self).spec_location().grapheme_index as int,
                        step,
                    ) as usize,
                };
                spec_search_step(*old(self), *final(self), from, SearchDirection::Forward)
            }),
    {
        let next_step: usize = match &self.search_info {
            Some(search_info) => match &search_info.query {
                Some(q) => {
                    proof {
                        q.lemma_wf_count_empty();
                    }
                    let c = q.grapheme_count();
                    if c < 1 {
                        c
                    } else {
                        1
                    }
                },
                None => 1,
            },
            None => 1,
        };
        let location = Location {
            line_index: self.text_location.line_index,
            grapheme_index: crate::annotatedstring::sat_add(
                self.text_location.grapheme_index,
                next_step,
            ),
        };
        self.search_in_direction(location, SearchDirection::Forward);
    }

    /// Step the search backward from the current match.
    pub fn search_previous(&mut self)
        requires
            old(self).wf(),
        ensures
            final(self).wf(),
            spec_search_step(
                *old(self),
                *final(self),
                old(self).spec_location(),
                SearchDirection::Backward,
            ),
    {
        let from = self.text_location;
        self.search_in_direction(from, SearchDirection::Backward);
    }
}

/// What a movement command leaves behind: the cursor moved and the
/// viewport scrolled just far enough to keep it visible.
pub open spec fn spec_move_applied(pre: View, post: View, command: Move) -> bool {
    let l2 = moved_location(pre.spec_lines(), pre.spec_size(), pre.spec_location(), command);
    let (col, row) = location_position(pre.spec_lines(), l2);
    let (c2, ch) = scrolled_axis(pre.spec_scroll().column as int, pre.spec_size().width as int, col);
    let (r2, rv) = scrolled_axis(pre.spec_scroll().row as int, pre.spec_size().height as int, row);
    &&& post.spec_location() == l2
    &&& post.spec_scroll() == Position { column: c2 as usize, row: r2 as usize }
    &&& post.spec_needs_redraw() == (pre.spec_needs_redraw() || ch || rv)
    &&& post.spec_buffer() == pre.spec_buffer()
    &&& post.spec_size() == pre.spec_size()
    &&& post.spec_search_session() == pre.spec_search_session()
}

/// What opening a search session leaves behind.
pub open spec fn spec_search_entered(pre: View, post: View) -> bool {
    &&& post.spec_search_session() == Some(
        SearchInfo {
            previous_location: pre.spec_location(),
            previous_scroll_offset: pre.spec_scroll(),
            query: None::<Line>,
        },
    )
    &&& post.spec_buffer() == pre.spec_buffer()
    &&& post.spec_location() == pre.spec_location()
    &&& post.spec_scroll() == pre.spec_scroll()
    &&& post.spec_size() == pre.spec_size()
    &&& post.spec_needs_redraw() == pre.spec_needs_redraw()
}

/// What closing the session at a match leaves behind.
pub open spec fn spec_search_exited(pre: View, post: View) -> bool {
    &&& post.spec_search_session() is None
    &&& post.spec_buffer() == pre.spec_buffer()
    &&& post.spec_location() == pre.spec_location()
    &&& post.spec_scroll() == pre.spec_scroll()
    &&& post.spec_size() == pre.spec_size()
    &&& post.spec_needs_redraw()
}

/// What cancelling the session leaves behind: the pre-search cursor
/// and scroll restored, scrolled back into view.
pub open spec fn spec_search_dismissed(pre: View, post: View) -> bool {
    &&& post.spec_search_session() is None
    &&& post.spec_buffer() == pre.spec_buffer()
    &&& post.spec_size() == pre.spec_size()
    &&& post.spec_needs_redraw()
    &&& (match pre.spec_search_session() {
        Some(info) => {
            let (col, row) = location_position(pre.spec_lines(), info.previous_location);
            let (c2, ch) = scrolled_axis(
                info.previous_scroll_offset.column as int,
                pre.spec_size().width as int,
                col,
            );
            let (r2, rv) = scrolled_axis(
                info.previous_scroll_offset.row as int,
                pre.spec_size().height as int,
                row,
            );
            &&& post.spec_location() == info.previous_location
            &&& post.spec_scroll() == Position { column: c2 as usize, row: r2 as usize }
        },
        None => {
            &&& post.spec_location() == pre.spec_location()
            &&& post.spec_scroll() == pre.spec_scroll()
        },
    })
}

/// What a live query update leaves behind: the query replaced and the
/// search re-run forward from the current cursor, centering on a hit.
pub open spec fn spec_live_searched(pre: View, post: View, q: Seq<char>) -> bool {
    &&& post.spec_needs_redraw()
    &&& (pre.spec_search_session() is None ==> {
        &&& post.spec_search_session() is None
        &&& post.spec_buffer() == pre.spec_buffer()
        &&& post.spec_location() == pre.spec_location()
        &&& post.spec_scroll() == pre.spec_scroll()
        &&& post.spec_size() == pre.spec_size()
    })
    &&& (pre.spec_search_session() matches Some(info) ==> {
        &&& post.spec_query() == Some(q)
        &&& (match post.spec_search_session() {
            Some(ni) => ni.previous_location == info.previous_location
                && ni.previous_scroll_offset == info.previous_scroll_offset,
            None => false,
        })
        &&& post.spec_buffer() == pre.spec_buffer()
        &&& post.spec_size() == pre.spec_size()
        &&& ({
            let hit = pre.spec_buffer().spec_search_next_loc(q, pre.spec_location());
            if q.len() == 0 {
                &&& post.spec_location() == pre.spec_location()
                &&& post.spec_scroll() == pre.spec_scroll()
            } else {
                match hit {
                    Some(l) => {
                        let (col, row) = location_position(pre.spec_lines(), l);
                        &&& post.spec_location() == l
                        &&& post.spec_scroll() == centered_scroll(pre.spec_size(), col, row)
                    },
                    None => {
                        &&& post.spec_location() == pre.spec_location()
                        &&& post.spec_scroll() == pre.spec_scroll()
                    },
                }
            }
        })
    })
}

/// What repeating the search forward leaves behind.
pub open spec fn spec_search_stepped_next(pre: View, post: View) -> bool {
    let step: int = match pre.spec_query() {
        Some(q) => if q.len() == 0 {
            0
        } else {
            1
        },
        None => 1,
    };
    let from = Location {
        line_index: pre.spec_location().line_index,
        grapheme_index: sat_add_spec(pre.spec_location().grapheme_index as int, step) as usize,
    };
    spec_search_step(pre, post, from, SearchDirection::Forward)
}

/// `n` spaces.
pub open spec fn spec_spaces(n: int) -> Seq<char> {
    Seq::new(
        if n >= 0 {
            n as nat
        } else {
            0
        },
        |i: int| ' ',
    )
}

/// The welcome banner: a tilde, then the greeting centered in the
/// remaining width; just the tilde when the greeting does not fit, and
/// nothing at width zero.
pub open spec fn spec_welcome(width: int) -> Seq<char> {
    if width <= 0 {
        Seq::<char>::empty()
    } else {
        let msg = "Welcome to Rsedit!"@;
        let rem = width - 1;
        if rem < msg.len() {
            seq!['~']
        } else {
            let pad = rem - msg.len();
            seq!['~'] + spec_spaces(pad / 2) + msg + spec_spaces(pad - pad / 2)
        }
    }
}

/// One visible row's content: a document line rendered with its
/// annotations, or plain filler text.
pub enum RowContent {
    Annotated(AnnotatedString),
    Plain(String),
}

/// The row of the welcome banner: a third of the way down the screen.
pub open spec fn spec_welcome_row(height: int) -> int {
    height / 3 + if height % 3 != 0 {
        1int
    } else {
        0int
    }
}

/// What screen row `k` of the view shows: the document line scrolled
/// into it, annotated and clipped to the visible columns; the welcome
/// banner on its row when the document is empty; a tilde otherwise.
pub open spec fn spec_row_content(v: View, origin: int, k: int, rc: RowContent) -> bool {
    let li = sat_add_spec(k, v.spec_scroll().row as int);
    let left = v.spec_scroll().column as int;
    let right = sat_add_spec(left, v.spec_size().width as int);
    if li < v.spec_lines().len() {
        let q = v.spec_query();
        let sel = if v.spec_location().line_index as int == li && q is Some {
            Some(v.spec_location().grapheme_index as int)
        } else {
            None::<int>
        };
        match rc {
            RowContent::Annotated(a) => {
                let expect = v.spec_lines()[li].spec_annotated_visible(left, right, q, sel);
                a.text() == expect.0 && a.anns() == expect.1
            },
            RowContent::Plain(_) => false,
        }
    } else if sat_add_spec(origin, k) == spec_welcome_row(v.spec_size().height as int)
        && v.spec_lines().len() == 0 {
        rc matches RowContent::Plain(s) && s@ == spec_welcome(v.spec_size().width as int)
    } else {
        rc matches RowContent::Plain(s) && s@ == seq!['~']
    }
}

/// The welcome banner's text.
fn welcome_text(width: usize) -> (r: String)
    ensures
        r@ == spec_welcome(width as int),
{
    if width == 0 {
        let r = String::new();
        assert(r@ =~= spec_welcome(0));
        return r;
    }
    let msg = "Welcome to Rsedit!";
    let msg_chars = str_chars(msg);
    let rem = width - 1;
    if rem < msg_chars.len() {
        let mut t: Vec<char> = Vec::new();
        t.push('~');
        assert(t@ =~= seq!['~']);
        return chars_to_string(&t);
    }
    let pad = rem - msg_chars.len();
    let left = pad / 2;
    let right = pad - left;
    let mut out: Vec<char> = Vec::new();
    out.push('~');
    let ghost base = out@;
    assert(base =~= seq!['~']);
    push_spaces(&mut out, left);
    let mn = msg_chars.len();
    let ghost with_left = out@;
    for i in 0..mn
        invariant
            mn == msg_chars@.len(),
            msg_chars@ == msg@,
            out@ == with_left + msg@.take(i as int),
    {
        out.push(msg_chars[i]);
        assert(out@ =~= with_left + msg@.take(i + 1));
    }
    assert(out@ =~= with_left + msg@);
    push_spaces(&mut out, right);
    assert(out@ =~= seq!['~'] + spec_spaces(left as int) + msg@ + spec_spaces(right as int));
    chars_to_string(&out)
}

/// Push `n` spaces onto `out`.
fn push_spaces(out: &mut Vec<char>, n: usize)
    ensures
        final(out)@ == old(out)@ + spec_spaces(n as int),
{
    for i in 0..n
        invariant
            out@ == old(out)@ + spec_spaces(i as int),
    {
        out.push(' ');
        assert(out@ =~= old(out)@ + spec_spaces(i + 1));
    }
}

impl View {
    /// The content of each visible screen row, top to bottom, for a
    /// view whose first row sits at `origin_row` on screen.
    pub fn draw_rows(&self, origin_row: usize) -> (r: Vec<RowContent>)
        requires
            self.wf(),
        ensures
            r@.len() == self.spec_size().height,
            forall|k: int|
                0 <= k < r@.len() ==> spec_row_content(*self, origin_row as int, k, #[trigger] r@[k]),
    {
        let height = self.size.height;
        let width = self.size.width;
        let mut r: Vec<RowContent> = Vec::new();
        let query_text = self.get_search_query_text();
        let welcome_row = height / 3 + if height % 3 != 0 {
            1
        } else {
            0
        };
        for k in 0..height
            invariant
                self.wf(),
                height == self.spec_size().height,
                width == self.spec_size().width,
                welcome_row == spec_welcome_row(height as int),
                query_text is Some <==> self.spec_query() is Some,
                query_text matches Some(s) ==> Some(s@) == self.spec_query(),
                r@.len() == k,
                forall|j: int|
                    0 <= j < k ==> spec_row_content(*self, origin_row as int, j, #[trigger] r@[j]),
        {
            let li = crate::annotatedstring::sat_add(k, self.scroll_offset.row);
            if li < self.buffer.height() {
                let left = self.scroll_offset.column;
                let right = crate::annotatedstring::sat_add(left, width);
                let qs: Option<&str> = match &query_text {
                    Some(s) => Some(s.as_str()),
                    None => None,
                };
                let selected: Option<usize> = if self.text_location.line_index == li
                    && qs.is_some() {
                    Some(self.text_location.grapheme_index)
                } else {
                    None
                };
                let line = self.buffer.line_at(li);
                let annotated = line.get_annotated_visible_substr(left, right, qs, selected);
                r.push(RowContent::Annotated(annotated));
            } else if crate::annotatedstring::sat_add(origin_row, k) == welcome_row
                && self.buffer.is_empty() {
                r.push(RowContent::Plain(welcome_text(width)));
            } else {
                let mut t: Vec<char> = Vec::new();
                t.push('~');
                assert(t@ =~= seq!['~']);
                r.push(RowContent::Plain(chars_to_string(&t)));
            }
        }
        r
    }

    /// The visible rows to repaint, if the view needs it; rendering
    /// clears the flag.
    pub fn render(&mut self, origin_row: usize) -> (r: Option<Vec<RowContent>>)
        requires
            old(self).wf(),
        ensures
            final(self).wf(),
            old(self).spec_needs_redraw() ==> (r matches Some(rows) && rows@.len() == old(
                self,
            ).spec_size().height && forall|k: int|
                0 <= k < rows@.len() ==> spec_row_content(
                    *old(self),
                    origin_row as int,
                    k,
                    #[trigger] rows@[k],
                )),
            !old(self).spec_needs_redraw() ==> r is None,
            final(self).spec_buffer() == old(self).spec_buffer(),
            final(self).spec_location() == old(self).spec_location(),
            final(self).spec_scroll() == old(self).spec_scroll(),
            final(self).spec_size() == old(self).spec_size(),
            final(self).spec_search_session() == old(self).spec_search_session(),
            !final(self).spec_needs_redraw(),
    {
        if self.needs_redraw {
            let rows = self.draw_rows(origin_row);
            self.needs_redraw = false;
            Some(rows)
        } else {
            None
        }
    }

    /// Adopt a new viewport size and repaint.
    pub fn resize(&mut self, size: Size)
        ensures
            final(self).spec_size() == size,
            final(self).spec_needs_redraw(),
            final(self).spec_buffer() == old(self).spec_buffer(),
            final(self).spec_location() == old(self).spec_location(),
            final(self).spec_scroll() == old(self).spec_scroll(),
            final(self).spec_search_session() == old(self).spec_search_session(),
            old(self).wf() ==> final(self).wf(),
    {
        self.size = size;
        self.needs_redraw = true;
    }
}

impl crate::uielements::UIElement for View {
    closed spec fn redraw_flag(&self) -> bool {
        self.needs_redraw
    }

    closed spec fn widget_size(&self) -> Size {
        self.size
    }

    fn set_needs_redraw(&mut self, value: bool) {
        self.needs_redraw = value;
    }

    fn get_needs_redraw(&self) -> (b: bool) {
        self.needs_redraw
    }

    fn set_size(&mut self, size: Size) {
        self.size = size;
    }

    fn resize(&mut self, size: Size) {
        self.size = size;
        self.needs_redraw = true;
    }
}

impl Default for View {
    /// An empty, untitled view at the document origin.
    fn default() -> (r: View)
        ensures
            r.wf(),
            r.spec_lines().len() == 0,
            r.spec_buffer().spec_path() is None,
            !r.spec_buffer().spec_modified(),
            r.spec_location() == (Location { line_index: 0usize, grapheme_index: 0usize }),
            r.spec_scroll() == (Position { column: 0usize, row: 0usize }),
            r.spec_size() == (Size { width: 0usize, height: 0usize }),
            !r.spec_needs_redraw(),
            r.spec_search_session() is None,
    {
        View {
            buffer: Buffer::default(),
            needs_redraw: false,
            size: Size { width: 0, height: 0 },
            text_location: Location { line_index: 0, grapheme_index: 0 },
            scroll_offset: Position { column: 0, row: 0 },
            search_info: None,
        }
    }
}

} // verus!
