//! The screen widgets around the document: the redraw discipline they
//! share, and the status, hint and command bars.

use vstd::prelude::*;
use crate::annotatedstring::{sat_add_spec, sat_sub_spec};
use crate::commands::Edit;
use crate::filestatus::{spec_digits, FileStatus};
use crate::line::Line;
use crate::position::Size;
use crate::unicode::{chars_to_string, str_chars};
use crate::view::spec_spaces;

verus! {

/// A widget that repaints only when something it shows has changed.
pub trait UIElement {
    spec fn redraw_flag(&self) -> bool;

    spec fn widget_size(&self) -> Size;

    fn set_needs_redraw(&mut self, value: bool)
        ensures
            final(self).redraw_flag() == value;

    fn get_needs_redraw(&self) -> (b: bool)
        ensures
            b == self.redraw_flag();

    fn set_size(&mut self, size: Size)
        ensures
            final(self).widget_size() == size;

    fn resize(&mut self, size: Size)
        ensures
            final(self).widget_size() == size,
            final(self).redraw_flag();
}

/// Two status snapshots that display identically.
pub open spec fn spec_status_eq(a: FileStatus, b: FileStatus) -> bool {
    &&& a.lines_count == b.lines_count
    &&& a.current_line_index == b.current_line_index
    &&& a.modified == b.modified
    &&& a.file_name@ == b.file_name@
}

/// The status row before the width gate: the file and modified
/// indicator on the left, the position and line count right-aligned
/// into the remaining width.
pub open spec fn spec_status_row_raw(st: FileStatus, width: int) -> Seq<char> {
    let modified_indicator = if st.modified {
        "Modified"@
    } else {
        "Not modified"@
    };
    let count_text = if st.lines_count != 1 {
        spec_digits(st.lines_count as int) + " lines"@
    } else {
        "1 line"@
    };
    let position = spec_digits(sat_add_spec(st.current_line_index as int, 1)) + ":"@ + spec_digits(
        st.lines_count as int,
    );
    let left = "[ STATUS ] :: [ "@ + st.file_name@ + " ] [ "@ + modified_indicator + " ]"@;
    let right = " [ "@ + position + " ] [ "@ + count_text + " ]"@;
    let remainder = sat_sub_spec(width, left.len() as int);
    let padded = if right.len() < remainder {
        spec_spaces(remainder - right.len()) + right
    } else {
        right
    };
    left + padded
}

/// The text of the status row; an overlong row displays as nothing.
pub open spec fn spec_status_row(st: FileStatus, width: int) -> Seq<char> {
    let whole = spec_status_row_raw(st, width);
    if whole.len() <= width {
        whole
    } else {
        Seq::<char>::empty()
    }
}

/// The bar showing the file's status snapshot.
pub struct StatusBar {
    current_status: FileStatus,
    size: Size,
    needs_redraw: bool,
}

impl StatusBar {
    pub closed spec fn spec_status(self) -> FileStatus {
        self.current_status
    }

    pub closed spec fn spec_needs_redraw(self) -> bool {
        self.needs_redraw
    }

    pub closed spec fn spec_size(self) -> Size {
        self.size
    }

    /// Adopt a new snapshot; nothing changes when it displays the same.
    pub fn update_status(&mut self, new_status: FileStatus)
        ensures
            spec_status_eq(new_status, old(self).spec_status()) ==> *final(self) == *old(self),
            !spec_status_eq(new_status, old(self).spec_status()) ==> {
                &&& final(self).spec_status() == new_status
                &&& final(self).spec_needs_redraw()
                &&& final(self).spec_size() == old(self).spec_size()
            },
    {
        if !new_status.same_as(&self.current_status) {
            self.current_status = new_status;
            self.needs_redraw = true;
        }
    }

    /// The status row's text for the bar's current width.
    pub fn draw_text(&self) -> (r: String)
        ensures
            r@ == spec_status_row(self.spec_status(), self.spec_size().width as int),
    {
        let mut row: Vec<char> = Vec::new();
        append_str(&mut row, "[ STATUS ] :: [ ");
        append_str(&mut row, self.current_status.file_name.as_str());
        append_str(&mut row, " ] [ ");
        let modified_indicator = self.current_status.modified_indicator_to_string();
        append_str(&mut row, modified_indicator.as_str());
        append_str(&mut row, " ]");
        let left_len = row.len();
        let mut right: Vec<char> = Vec::new();
        append_str(&mut right, " [ ");
        let position = self.current_status.position_indicator_to_string();
        append_str(&mut right, position.as_str());
        append_str(&mut right, " ] [ ");
        let count_text = self.current_status.lines_count_to_string();
        append_str(&mut right, count_text.as_str());
        append_str(&mut right, " ]");
        let width = self.size.width;
        let remainder = if width >= left_len {
            width - left_len
        } else {
            0
        };
        if right.len() < remainder {
            let pad = remainder - right.len();
            append_spaces(&mut row, pad);
        }
        row.append(&mut right);
        assert(row@ =~= spec_status_row_raw(self.spec_status(), width as int));
        if row.len() <= width {
            chars_to_string(&row)
        } else {
            let r = String::new();
            assert(r@ =~= Seq::<char>::empty());
            r
        }
    }

    /// The row to repaint, if the bar needs it; rendering clears the
    /// flag.
    pub fn render(&mut self) -> (r: Option<String>)
        ensures
            old(self).spec_needs_redraw() ==> (r matches Some(s) && s@ == spec_status_row(
                old(self).spec_status(),
                old(self).spec_size().width as int,
            )),
            !old(self).spec_needs_redraw() ==> r is None,
            final(self).spec_status() == old(self).spec_status(),
            final(self).spec_size() == old(self).spec_size(),
            !final(self).spec_needs_redraw(),
    {
        if self.needs_redraw {
            let text = self.draw_text();
            self.needs_redraw = false;
            Some(text)
        } else {
            None
        }
    }
}

impl UIElement for StatusBar {
    closed spec fn redraw_flag(&self) -> bool {
        self.needs_redraw
    }

    closed spec fn widget_size(&self) -> Size {
        self.size
    }

    fn set_needs_redraw(&mut self, value: bool) {
        self.needs_redraw = value;
    }

    fn get_needs_redraw(&self) -> (b: bool) {
        self.needs_redraw
    }

    fn set_size(&mut self, size: Size) {
        self.size = size;
    }

    fn resize(&mut self, size: Size) {
        self.size = size;
        self.needs_redraw = true;
    }
}

impl Default for StatusBar {
    /// A bar with an empty snapshot, not yet drawn.
    fn default() -> (r: StatusBar)
        ensures
            !r.spec_needs_redraw(),
            r.spec_size() == (Size { width: 0usize, height: 0usize }),
    {
        StatusBar {
            current_status: FileStatus {
                lines_count: 0,
                current_line_index: 0,
                modified: false,
                file_name: String::new(),
            },
            size: Size { width: 0, height: 0 },
            needs_redraw: false,
        }
    }
}

/// Push each character of `s` onto `out`.
fn append_str(out: &mut Vec<char>, s: &str)
    ensures
        final(out)@ == old(out)@ + s@,
{
    let chars = str_chars(s);
    let n = chars.len();
    for i in 0..n
        invariant
            n == chars@.len(),
            chars@ == s@,
            out@ == old(out)@ + s@.take(i as int),
    {
        out.push(chars[i]);
        assert(out@ =~= old(out)@ + s@.take(i + 1));
    }
    assert(out@ =~= old(out)@ + s@);
}

/// Push `n` spaces onto `out`.
fn append_spaces(out: &mut Vec<char>, n: usize)
    ensures
        final(out)@ == old(out)@ + spec_spaces(n as int),
{
    for i in 0..n
        invariant
            out@ == old(out)@ + spec_spaces(i as int),
    {
        out.push(' ');
        assert(out@ =~= old(out)@ + spec_spaces(i + 1));
    }
}

/// The bar showing the current hint text.
pub struct HintBar {
    current_hint: String,
    size: Size,
    needs_redraw: bool,
}

impl HintBar {
    pub closed spec fn spec_hint(self) -> Seq<char> {
        self.current_hint@
    }

    pub closed spec fn spec_needs_redraw(self) -> bool {
        self.needs_redraw
    }

    /// Adopt a new hint, displayed under the hint marker.
    pub fn update_hint(&mut self, new_hint: &str)
        ensures
            final(self).spec_hint() == "[ HINT ] :: "@ + new_hint@,
            final(self).spec_needs_redraw(),
    {
        let mut hint = "[ HINT ] :: ".to_owned();
        hint.append(new_hint);
        self.current_hint = hint;
        self.needs_redraw = true;
    }

    pub fn draw_text(&self) -> (r: String)
        ensures
            r@ == self.spec_hint(),
    {
        self.current_hint.clone()
    }

    /// The row to repaint, if the bar needs it; rendering clears the
    /// flag.
    pub fn render(&mut self) -> (r: Option<String>)
        ensures
            old(self).spec_needs_redraw() ==> (r matches Some(s) && s@ == old(self).spec_hint()),
            !old(self).spec_needs_redraw() ==> r is None,
            final(self).spec_hint() == old(self).spec_hint(),
            !final(self).spec_needs_redraw(),
    {
        if self.needs_redraw {
            let text = self.draw_text();
            self.needs_redraw = false;
            Some(text)
        } else {
            None
        }
    }

    /// Mark the hint for repaint without changing it.
    pub fn set_needs_redraw(&mut self, value: bool)
        ensures
            final(self).spec_needs_redraw() == value,
            final(self).spec_hint() == old(self).spec_hint(),
    {
        self.needs_redraw = value;
    }

    pub fn get_needs_redraw(&self) -> (b: bool)
        ensures
            b == self.spec_needs_redraw(),
    {
        self.needs_redraw
    }
}

impl UIElement for HintBar {
    closed spec fn redraw_flag(&self) -> bool {
        self.needs_redraw
    }

    closed spec fn widget_size(&self) -> Size {
        self.size
    }

    fn set_needs_redraw(&mut self, value: bool) {
        self.needs_redraw = value;
    }

    fn get_needs_redraw(&self) -> (b: bool) {
        self.needs_redraw
    }

    fn set_size(&mut self, size: Size) {
        self.size = size;
    }

    fn resize(&mut self, size: Size) {
        self.size = size;
        self.needs_redraw = true;
    }
}

impl Default for HintBar {
    /// The startup key hints.
    fn default() -> (r: HintBar)
        ensures
            r.spec_hint() == "[ Control + S -> Save ] [ Control + Q -> Quit ]"@,
            !r.spec_needs_redraw(),
    {
        HintBar {
            current_hint: "[ Control + S -> Save ] [ Control + Q -> Quit ]".to_owned(),
            size: Size { width: 0, height: 0 },
            needs_redraw: false,
        }
    }
}

/// The text of the prompt bar's row: the prompt, then the tail of the
/// value that fits beside it; an overlong row displays as nothing.
pub open spec fn spec_command_row(prompt: Seq<char>, value: Line, width: int) -> Seq<char> {
    let value_area = sat_sub_spec(width, prompt.len() as int);
    let value_end = vstd::math::min(
        crate::line::width_sum(value.clusters(), value.spec_grapheme_count() as int) as int,
        usize::MAX as int,
    );
    let value_start = sat_sub_spec(value_end, value_area);
    let visible = value.spec_annotated_visible(
        value_start,
        value_end,
        None::<Seq<char>>,
        None::<int>,
    ).0;
    let message = prompt + visible;
    if message.len() <= width {
        message
    } else {
        Seq::<char>::empty()
    }
}

/// The prompt bar: a label and a live single-line value the user
/// edits.
pub struct CommandBar {
    prompt: Vec<char>,
    value: Line,
    size: Size,
    needs_redraw: bool,
}

impl CommandBar {
    pub closed spec fn spec_prompt(self) -> Seq<char> {
        self.prompt@
    }

    pub closed spec fn spec_value(self) -> Line {
        self.value
    }

    pub closed spec fn spec_needs_redraw(self) -> bool {
        self.needs_redraw
    }

    pub closed spec fn spec_size(self) -> Size {
        self.size
    }

    pub open spec fn wf(self) -> bool {
        self.spec_value().wf()
    }

    /// Feed an edit command into the live value: characters append,
    /// backspace removes the last grapheme, everything else is
    /// ignored.
    pub fn handle_edit_command(&mut self, command: Edit)
        requires
            old(self).wf(),
        ensures
            final(self).wf(),
            final(self).spec_needs_redraw(),
            final(self).spec_prompt() == old(self).spec_prompt(),
            final(self).spec_size() == old(self).spec_size(),
            ({
                let v = old(self).spec_value();
                match command {
                    Edit::InsertCharacter(c) => final(self).spec_value()@ == v@.push(c),
                    Edit::DeletePrevious => final(self).spec_value()@ == v.spec_remove(
                        v.spec_grapheme_count() as int - 1,
                    ),
                    _ => final(self).spec_value()@ == v@,
                }
            }),
    {
        match command {
            Edit::InsertCharacter(character) => self.value.append_char(character),
            Edit::DeletePrevious => self.value.remove_last_char(),
            _ => {},
        }
        self.needs_redraw = true;
    }

    /// Where the terminal cursor belongs: just past the typed value,
    /// clamped to the bar's width.
    pub fn get_cursor_column(&self) -> (c: usize)
        requires
            self.wf(),
        ensures
            c == vstd::math::min(
                sat_add_spec(
                    self.spec_prompt().len() as int,
                    self.spec_value().spec_grapheme_count() as int,
                ),
                self.spec_size().width as int,
            ),
    {
        let count = self.value.grapheme_count();
        let max_width = crate::annotatedstring::sat_add(self.prompt.len(), count);
        if max_width < self.size.width {
            max_width
        } else {
            self.size.width
        }
    }

    pub fn clear_value(&mut self)
        ensures
            final(self).wf(),
            final(self).spec_value()@ == Seq::<char>::empty(),
            final(self).spec_needs_redraw(),
            final(self).spec_prompt() == old(self).spec_prompt(),
            final(self).spec_size() == old(self).spec_size(),
    {
        self.value = Line::default();
        self.needs_redraw = true;
    }

    pub fn get_value(&self) -> (r: String)
        ensures
            r@ == self.spec_value()@,
    {
        self.value.content()
    }

    pub fn set_prompt(&mut self, prompt: &str)
        ensures
            final(self).spec_prompt() == prompt@,
            final(self).spec_needs_redraw(),
            final(self).spec_value() == old(self).spec_value(),
            final(self).spec_size() == old(self).spec_size(),
            old(self).wf() ==> final(self).wf(),
    {
        self.prompt = str_chars(prompt);
        self.needs_redraw = true;
    }

    /// The bar's text: the prompt followed by the tail of the value
    /// that fits beside it; an overlong row displays as nothing.
    pub fn draw_text(&self) -> (r: String)
        requires
            self.wf(),
        ensures
            r@ == spec_command_row(self.spec_prompt(), self.spec_value(), self.spec_size().width as int),
    {
        let width = self.size.width;
        let value_area = crate::annotatedstring::sat_sub(width, self.prompt.len());
        let value_end = self.value.width();
        let value_start = crate::annotatedstring::sat_sub(value_end, value_area);
        let visible = self.value.get_visible_graphemes(value_start, value_end);
        let mut message: Vec<char> = Vec::new();
        let pn = self.prompt.len();
        for i in 0..pn
            invariant
                pn == self.prompt@.len(),
                message@ == self.prompt@.take(i as int),
        {
            message.push(self.prompt[i]);
            assert(message@ =~= self.prompt@.take(i + 1));
        }
        assert(message@ =~= self.prompt@);
        append_str(&mut message, visible.as_str());
        if message.len() <= width {
            chars_to_string(&message)
        } else {
            let r = String::new();
            assert(r@ =~= Seq::<char>::empty());
            r
        }
    }

    /// The row to repaint, if the bar needs it; rendering clears the
    /// flag.
    pub fn render(&mut self) -> (r: Option<String>)
        requires
            old(self).wf(),
        ensures
            final(self).wf(),
            old(self).spec_needs_redraw() ==> (r matches Some(s) && s@ == spec_command_row(
                old(self).spec_prompt(),
                old(self).spec_value(),
                old(self).spec_size().width as int,
            )),
            !old(self).spec_needs_redraw() ==> r is None,
            final(self).spec_prompt() == old(self).spec_prompt(),
            final(self).spec_value() == old(self).spec_value(),
            final(self).spec_size() == old(self).spec_size(),
            !final(self).spec_needs_redraw(),
    {
        if self.needs_redraw {
            let text = self.draw_text();
            self.needs_redraw = false;
            Some(text)
        } else {
            None
        }
    }

    /// Mark the bar for repaint without changing its content.
    pub fn set_needs_redraw(&mut self, value: bool)
        ensures
            final(self).spec_needs_redraw() == value,
            final(self).spec_prompt() == old(self).spec_prompt(),
            final(self).spec_value() == old(self).spec_value(),
            final(self).spec_size() == old(self).spec_size(),
            old(self).wf() ==> final(self).wf(),
    {
        self.needs_redraw = value;
    }

    pub fn get_needs_redraw(&self) -> (b: bool)
        ensures
            b == self.spec_needs_redraw(),
    {
        self.needs_redraw
    }

    /// Adopt a new size and repaint, keeping the prompt and value.
    pub fn resize(&mut self, size: Size)
        ensures
            final(self).spec_size() == size,
            final(self).spec_needs_redraw(),
            final(self).spec_prompt() == old(self).spec_prompt(),
            final(self).spec_value() == old(self).spec_value(),
            old(self).wf() ==> final(self).wf(),
    {
        self.size = size;
        self.needs_redraw = true;
    }
}

impl UIElement for CommandBar {
    closed spec fn redraw_flag(&self) -> bool {
        self.needs_redraw
    }

    closed spec fn widget_size(&self) -> Size {
        self.size
    }

    fn set_needs_redraw(&mut self, value: bool) {
        self.needs_redraw = value;
    }

    fn get_needs_redraw(&self) -> (b: bool) {
        self.needs_redraw
    }

    fn set_size(&mut self, size: Size) {
        self.size = size;
    }

    fn resize(&mut self, size: Size) {
        self.size = size;
        self.needs_redraw = true;
    }
}

impl Default for CommandBar {
    /// An empty prompt and value, not yet drawn.
    fn default() -> (r: CommandBar)
        ensures
            r.wf(),
            r.spec_prompt() == Seq::<char>::empty(),
            r.spec_value()@ == Seq::<char>::empty(),
            !r.spec_needs_redraw(),
            r.spec_size() == (Size { width: 0usize, height: 0usize }),
    {
        let bar = CommandBar {
            prompt: Vec::new(),
            value: Line::default(),
            size: Size { width: 0, height: 0 },
            needs_redraw: false,
        };
        assert(bar.spec_prompt() =~= Seq::<char>::empty());
        bar
    }
}

} // verus!
