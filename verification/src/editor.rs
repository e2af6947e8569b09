//! The command-routing state machine: given the active input mode
//! (normal, search prompt, save prompt) and an abstract command, it
//! decides which component receives it and how the mode changes, and
//! assembles the render plan for each frame.

use vstd::prelude::*;
use vstd::view::View as ViewTrait;
use crate::annotatedstring::{sat_sub_spec, AnnotatedString};
use crate::buffer::spec_file_label;
use crate::commands::{Command, Edit, Move, System};
use crate::position::{Position, Size};
use crate::uielements::{CommandBar, HintBar, StatusBar, UIElement};
use crate::view::{
    spec_edit_applied, spec_live_searched, spec_move_applied, spec_search_dismissed,
    spec_search_entered, spec_search_exited, spec_search_step, spec_search_stepped_next,
    RowContent, SearchDirection, View,
};

verus! {

/// Which prompt, if any, is intercepting input.
#[derive(Clone, Copy, Debug, PartialEq, Eq, Structural)]
pub enum PromptType {
    NoPrompt,
    Search,
    Save,
}

/// What the surrounding application must perform after a command was
/// routed: nothing, a save to the current file, or a save under the
/// given name.
pub enum EditorAction {
    Nothing,
    SaveFile,
    SaveFileAs(String),
}

/// One screen update: repaint this row with annotated, plain or
/// inverted content.
pub enum ScreenPatch {
    Annotated(usize, AnnotatedString),
    Plain(usize, String),
    Inverted(usize, String),
}

/// Everything one frame repaints, and where the cursor belongs.
pub struct RenderPlan {
    pub patches: Vec<ScreenPatch>,
    pub cursor: Position,
}

/// Quitting is allowed for an unmodified buffer, and for modified
/// scratch content that belongs to no named file.
pub open spec fn spec_quit_allowed(v: View) -> bool {
    ||| !v.spec_buffer().spec_modified()
    ||| spec_file_label(v.spec_buffer().spec_path()) == "No file open"@
}

/// The editor: the document view, the chrome widgets, and the mode
/// state machine over them.
pub struct Editor {
    should_quit: bool,
    view: View,
    statusbar: StatusBar,
    hintbar: HintBar,
    commandbar: CommandBar,
    prompt_type: PromptType,
    title: String,
    terminal_size: Size,
}

impl Editor {
    pub closed spec fn spec_should_quit(self) -> bool {
        self.should_quit
    }

    pub closed spec fn spec_view(self) -> View {
        self.view
    }

    pub closed spec fn spec_statusbar(self) -> StatusBar {
        self.statusbar
    }

    pub closed spec fn spec_hintbar(self) -> HintBar {
        self.hintbar
    }

    pub closed spec fn spec_commandbar(self) -> CommandBar {
        self.commandbar
    }

    pub closed spec fn spec_prompt(self) -> PromptType {
        self.prompt_type
    }

    pub closed spec fn spec_title(self) -> Seq<char> {
        self.title@
    }

    pub closed spec fn spec_terminal_size(self) -> Size {
        self.terminal_size
    }

    pub open spec fn wf(self) -> bool {
        &&& self.spec_view().wf()
        &&& self.spec_commandbar().wf()
    }
}

/// The widget sizes a terminal size dictates: the view gets the width
/// and all but two rows, each bar gets one row.
pub open spec fn spec_resized(pre: Editor, post: Editor, size: Size) -> bool {
    &&& post.spec_terminal_size() == size
    &&& post.spec_view().spec_size() == Size {
        width: size.width,
        height: sat_sub_spec(size.height as int, 2) as usize,
    }
    &&& post.spec_view().spec_needs_redraw()
    &&& post.spec_view().spec_buffer() == pre.spec_view().spec_buffer()
    &&& post.spec_view().spec_location() == pre.spec_view().spec_location()
    &&& post.spec_view().spec_scroll() == pre.spec_view().spec_scroll()
    &&& post.spec_view().spec_search_session() == pre.spec_view().spec_search_session()
    &&& post.spec_should_quit() == pre.spec_should_quit()
    &&& post.spec_prompt() == pre.spec_prompt()
}

/// How a command routes in normal mode: quit is guarded, search and
/// save open their prompts (save goes straight to the file when one is
/// loaded), and movement and edits go to the view.
pub open spec fn spec_normal_routed(
    pre: Editor,
    post: Editor,
    cmd: Command,
    action: EditorAction,
) -> bool {
    match cmd {
        Command::System(s) => match s {
            System::Quit => {
                &&& action is Nothing
                &&& post.spec_prompt() == PromptType::NoPrompt
                &&& post.spec_view() == pre.spec_view()
                &&& post.spec_should_quit() == (pre.spec_should_quit() || spec_quit_allowed(
                    pre.spec_view(),
                ))
                &&& (spec_quit_allowed(pre.spec_view()) ==> post.spec_hintbar().spec_hint()
                    == "[ HINT ] :: "@ + "[ Quitting ]"@)
                &&& (!spec_quit_allowed(pre.spec_view()) ==> post.spec_hintbar().spec_hint()
                    == "[ HINT ] :: "@ + "[ Error quitting. The file has unsaved changes ]"@)
            },
            System::Dismiss => {
                &&& action is Nothing
                &&& post == pre
            },
            System::Search => {
                &&& action is Nothing
                &&& post.spec_prompt() == PromptType::Search
                &&& spec_search_entered(pre.spec_view(), post.spec_view())
                &&& post.spec_commandbar().spec_prompt() == "[ COMMAND ] :: Search: "@
                &&& post.spec_commandbar().spec_value()@ == Seq::<char>::empty()
                &&& post.spec_should_quit() == pre.spec_should_quit()
            },
            System::Save => {
                if pre.spec_view().spec_buffer().spec_path() is Some {
                    &&& action is SaveFile
                    &&& post == pre
                } else {
                    &&& action is Nothing
                    &&& post.spec_prompt() == PromptType::Save
                    &&& post.spec_view() == pre.spec_view()
                    &&& post.spec_commandbar().spec_prompt() == "[ COMMAND ] :: Save as: "@
                    &&& post.spec_commandbar().spec_value()@ == Seq::<char>::empty()
                    &&& post.spec_should_quit() == pre.spec_should_quit()
                }
            },
            System::Resize(_) => true,
        },
        Command::Edit(e) => {
            &&& action is Nothing
            &&& spec_edit_applied(pre.spec_view(), post.spec_view(), e)
            &&& post.spec_prompt() == PromptType::NoPrompt
            &&& post.spec_should_quit() == pre.spec_should_quit()
            &&& post.spec_commandbar() == pre.spec_commandbar()
        },
        Command::Move(m) => {
            &&& action is Nothing
            &&& spec_move_applied(pre.spec_view(), post.spec_view(), m)
            &&& post.spec_prompt() == PromptType::NoPrompt
            &&& post.spec_should_quit() == pre.spec_should_quit()
            &&& post.spec_commandbar() == pre.spec_commandbar()
        },
    }
}

/// How a command routes while the search prompt is open: edits feed
/// the live query and re-search, vertical moves repeat the match,
/// enter commits, escape cancels and restores.
pub open spec fn spec_search_routed(
    pre: Editor,
    post: Editor,
    cmd: Command,
    action: EditorAction,
) -> bool {
    &&& action is Nothing
    &&& post.spec_should_quit() == pre.spec_should_quit()
    &&& (match cmd {
        Command::System(System::Dismiss) => {
            &&& post.spec_prompt() == PromptType::NoPrompt
            &&& spec_search_dismissed(pre.spec_view(), post.spec_view())
            &&& post.spec_hintbar().spec_hint() == "[ HINT ] :: "@ + "[ Cancelled searching ]"@
            &&& post.spec_commandbar().spec_value()@ == Seq::<char>::empty()
        },
        Command::Edit(Edit::InsertLine) => {
            &&& post.spec_prompt() == PromptType::NoPrompt
            &&& spec_search_exited(pre.spec_view(), post.spec_view())
            &&& post.spec_hintbar().spec_hint() == "[ HINT ] :: "@ + "[ Done searching ]"@
            &&& post.spec_commandbar().spec_value()@ == Seq::<char>::empty()
        },
        Command::Edit(e) => {
            &&& post.spec_prompt() == PromptType::Search
            &&& ({
                let v = pre.spec_commandbar().spec_value();
                let v2 = post.spec_commandbar().spec_value()@;
                &&& (match e {
                    Edit::InsertCharacter(c) => v2 == v@.push(c),
                    Edit::DeletePrevious => v2 == v.spec_remove(v.spec_grapheme_count() as int - 1),
                    _ => v2 == v@,
                })
                &&& spec_live_searched(pre.spec_view(), post.spec_view(), v2)
            })
        },
        Command::Move(m) => {
            if m == Move::Up || m == Move::Left {
                &&& post.spec_prompt() == PromptType::Search
                &&& spec_search_step(
                    pre.spec_view(),
                    post.spec_view(),
                    pre.spec_view().spec_location(),
                    SearchDirection::Backward,
                )
                &&& post.spec_commandbar() == pre.spec_commandbar()
            } else if m == Move::Down || m == Move::Right {
                &&& post.spec_prompt() == PromptType::Search
                &&& spec_search_stepped_next(pre.spec_view(), post.spec_view())
                &&& post.spec_commandbar() == pre.spec_commandbar()
            } else {
                post == pre
            }
        },
        _ => post == pre,
    })
}

/// How a command routes while the save prompt is open: edits feed the
/// filename, enter hands the save back to the application, escape
/// cancels.
pub open spec fn spec_save_routed(
    pre: Editor,
    post: Editor,
    cmd: Command,
    action: EditorAction,
) -> bool {
    &&& post.spec_should_quit() == pre.spec_should_quit()
    &&& (match cmd {
        Command::System(System::Dismiss) => {
            &&& action is Nothing
            &&& post.spec_prompt() == PromptType::NoPrompt
            &&& post.spec_view() == pre.spec_view()
            &&& post.spec_hintbar().spec_hint() == "[ HINT ] :: "@ + "[ Cancelled saving ]"@
            &&& post.spec_commandbar().spec_value()@ == Seq::<char>::empty()
        },
        Command::Edit(Edit::InsertLine) => {
            &&& (match action {
                EditorAction::SaveFileAs(name) => name@ == pre.spec_commandbar().spec_value()@,
                _ => false,
            })
            &&& post.spec_prompt() == PromptType::NoPrompt
            &&& post.spec_view() == pre.spec_view()
            &&& post.spec_commandbar().spec_value()@ == Seq::<char>::empty()
        },
        Command::Edit(e) => {
            &&& action is Nothing
            &&& post.spec_prompt() == PromptType::Save
            &&& post.spec_view() == pre.spec_view()
            &&& ({
                let v = pre.spec_commandbar().spec_value();
                match e {
                    Edit::InsertCharacter(c) => post.spec_commandbar().spec_value()@ == v@.push(c),
                    Edit::DeletePrevious => post.spec_commandbar().spec_value()@ == v.spec_remove(
                        v.spec_grapheme_count() as int - 1,
                    ),
                    _ => post.spec_commandbar().spec_value()@ == v@,
                }
            })
        },
        _ => action is Nothing && post == pre,
    })
}

/// Where a routed command lands: a resize is handled in every mode,
/// everything else goes by the active prompt.
pub open spec fn spec_command_routed(
    pre: Editor,
    post: Editor,
    cmd: Command,
    action: EditorAction,
) -> bool {
    match cmd {
        Command::System(System::Resize(size)) => action is Nothing && spec_resized(
            pre,
            post,
            size,
        ),
        _ => match pre.spec_prompt() {
            PromptType::Search => spec_search_routed(pre, post, cmd, action),
            PromptType::Save => spec_save_routed(pre, post, cmd, action),
            PromptType::NoPrompt => spec_normal_routed(pre, post, cmd, action),
        },
    }
}

impl Editor {
    /// An editor sized to the terminal, showing the startup hints.
    pub fn new(terminal_size: Size) -> (r: Editor)
        ensures
            r.wf(),
            !r.spec_should_quit(),
            r.spec_prompt() == PromptType::NoPrompt,
            r.spec_terminal_size() == terminal_size,
            r.spec_view().spec_lines().len() == 0,
            r.spec_view().spec_buffer().spec_path() is None,
            !r.spec_view().spec_buffer().spec_modified(),
            r.spec_hintbar().spec_hint() == "[ HINT ] :: "@
                + "[ Control + F -> Search ] [ Control + S -> Save ] [ Control + Q -> Quit ]"@,
    {
        let mut editor = Editor {
            should_quit: false,
            view: View::default(),
            statusbar: StatusBar::default(),
            hintbar: HintBar::default(),
            commandbar: CommandBar::default(),
            prompt_type: PromptType::NoPrompt,
            title: String::new(),
            terminal_size: Size { width: 0, height: 0 },
        };
        editor.handle_resize_command(terminal_size);
        editor.hintbar.update_hint(
            "[ Control + F -> Search ] [ Control + S -> Save ] [ Control + Q -> Quit ]",
        );
        editor
    }

    /// Adopt the given file's text as the document.
    pub fn open_file(&mut self, file_name: &str, contents: &str)
        requires
            old(self).wf(),
        ensures
            final(self).wf(),
            final(self).spec_view().spec_buffer().spec_path() == Some(file_name@),
            !final(self).spec_view().spec_buffer().spec_modified(),
            crate::buffer::lines_list_views(
                final(self).spec_view().spec_lines(),
                crate::buffer::spec_lines_of(contents@),
            ),
            final(self).spec_should_quit() == old(self).spec_should_quit(),
            final(self).spec_prompt() == old(self).spec_prompt(),
    {
        self.view.load(file_name, contents);
    }

    /// Report that the file could not be read.
    pub fn on_open_error(&mut self)
        requires
            old(self).wf(),
        ensures
            final(self).wf(),
            final(self).spec_hintbar().spec_hint() == "[ HINT ] :: "@
                + "[ Error opening the file ]"@,
            final(self).spec_view() == old(self).spec_view(),
            final(self).spec_should_quit() == old(self).spec_should_quit(),
            final(self).spec_prompt() == old(self).spec_prompt(),
    {
        self.hintbar.update_hint("[ Error opening the file ]");
    }

    pub fn should_quit(&self) -> (b: bool)
        ensures
            b == self.spec_should_quit(),
    {
        self.should_quit
    }

    pub fn is_in_prompt(&self) -> (b: bool)
        ensures
            b == (self.spec_prompt() != PromptType::NoPrompt),
    {
        match self.prompt_type {
            PromptType::NoPrompt => false,
            _ => true,
        }
    }

    /// The path of the file the document belongs to, if any.
    pub fn file_path(&self) -> (r: Option<String>)
        ensures
            r is Some <==> self.spec_view().spec_buffer().spec_path() is Some,
            r matches Some(p) ==> Some(p@) == self.spec_view().spec_buffer().spec_path(),
    {
        self.view.file_path()
    }

    /// The text the document persists as.
    pub fn save_content(&self) -> (r: String)
        requires
            self.wf(),
        ensures
            r@ == crate::buffer::spec_joined(
                crate::buffer::line_views(self.spec_view().spec_lines()),
            ),
    {
        self.view.save_content()
    }

    /// Record the outcome of the save the application performed.
    pub fn on_save_result(&mut self, file_name: Option<&str>, ok: bool)
        requires
            old(self).wf(),
        ensures
            final(self).wf(),
            final(self).spec_should_quit() == old(self).spec_should_quit(),
            final(self).spec_prompt() == old(self).spec_prompt(),
            ok ==> {
                &&& !final(self).spec_view().spec_buffer().spec_modified()
                &&& (match file_name {
                    Some(n) => final(self).spec_view().spec_buffer().spec_path() == Some(n@),
                    None => final(self).spec_view().spec_buffer().spec_path() == old(
                        self,
                    ).spec_view().spec_buffer().spec_path(),
                })
                &&& final(self).spec_view().spec_lines() == old(self).spec_view().spec_lines()
                &&& final(self).spec_hintbar().spec_hint() == "[ HINT ] :: "@
                    + "[ Successfully saved the file ]"@
            },
            !ok ==> {
                &&& final(self).spec_view() == old(self).spec_view()
                &&& final(self).spec_hintbar().spec_hint() == "[ HINT ] :: "@
                    + "[ Error saving the file ]"@
            },
    {
        if ok {
            match file_name {
                Some(name) => self.view.mark_saved_as(name),
                None => self.view.mark_saved(),
            }
            self.hintbar.update_hint("[ Successfully saved the file ]");
        } else {
            self.hintbar.update_hint("[ Error saving the file ]");
        }
    }

    /// Route one command through the mode state machine.
    pub fn process_command(&mut self, command: Command) -> (action: EditorAction)
        requires
            old(self).wf(),
        ensures
            final(self).wf(),
            spec_command_routed(*old(self), *final(self), command, action),
    {
        match command {
            Command::System(System::Resize(size)) => {
                self.handle_resize_command(size);
                return EditorAction::Nothing;
            },
            _ => {},
        }
        match self.prompt_type {
            PromptType::Search => self.process_search_command(command),
            PromptType::Save => self.process_save_command(command),
            PromptType::NoPrompt => self.process_no_prompt_command(command),
        }
    }

    fn process_search_command(&mut self, command: Command) -> (action: EditorAction)
        requires
            old(self).wf(),
            old(self).spec_prompt() == PromptType::Search,
            !(command matches Command::System(System::Resize(_))),
        ensures
            final(self).wf(),
            spec_search_routed(*old(self), *final(self), command, action),
    {
        match command {
            Command::System(System::Dismiss) => {
                self.set_prompt(PromptType::NoPrompt);
                self.view.dismiss_search();
                self.hintbar.update_hint("[ Cancelled searching ]");
            },
            Command::Edit(Edit::InsertLine) => {
                self.set_prompt(PromptType::NoPrompt);
                self.view.exit_search();
                self.hintbar.update_hint("[ Done searching ]");
            },
            Command::Edit(edit_command) => {
                self.commandbar.handle_edit_command(edit_command);
                let query = self.commandbar.get_value();
                self.view.search(query.as_str());
            },
            Command::Move(m) => {
                match m {
                    Move::Up | Move::Left => self.view.search_previous(),
                    Move::Down | Move::Right => self.view.search_next(),
                    _ => {},
                }
            },
            _ => {},
        }
        EditorAction::Nothing
    }

    fn process_save_command(&mut self, command: Command) -> (action: EditorAction)
        requires
            old(self).wf(),
            old(self).spec_prompt() == PromptType::Save,
            !(command matches Command::System(System::Resize(_))),
        ensures
            final(self).wf(),
            spec_save_routed(*old(self), *final(self), command, action),
    {
        match command {
            Command::System(System::Dismiss) => {
                self.set_prompt(PromptType::NoPrompt);
                self.hintbar.update_hint("[ Cancelled saving ]");
                EditorAction::Nothing
            },
            Command::Edit(Edit::InsertLine) => {
                let file_name = self.commandbar.get_value();
                self.set_prompt(PromptType::NoPrompt);
                EditorAction::SaveFileAs(file_name)
            },
            Command::Edit(edit_command) => {
                self.commandbar.handle_edit_command(edit_command);
                EditorAction::Nothing
            },
            _ => EditorAction::Nothing,
        }
    }

    fn process_no_prompt_command(&mut self, command: Command) -> (action: EditorAction)
        requires
            old(self).wf(),
            old(self).spec_prompt() == PromptType::NoPrompt,
            !(command matches Command::System(System::Resize(_))),
        ensures
            final(self).wf(),
            spec_normal_routed(*old(self), *final(self), command, action),
    {
        match command {
            Command::System(System::Quit) => {
                self.handle_quit_command();
                EditorAction::Nothing
            },
            Command::System(System::Search) => {
                self.set_prompt(PromptType::Search);
                EditorAction::Nothing
            },
            Command::System(System::Save) => {
                if self.view.is_file_loaded() {
                    EditorAction::SaveFile
                } else {
                    self.set_prompt(PromptType::Save);
                    EditorAction::Nothing
                }
            },
            Command::Edit(edit_command) => {
                self.view.handle_edit_command(edit_command);
                EditorAction::Nothing
            },
            Command::Move(move_command) => {
                self.view.handle_move_command(move_command);
                EditorAction::Nothing
            },
            _ => EditorAction::Nothing,
        }
    }

    /// Refuse to quit while the buffer holds unsaved changes to a
    /// named file; untitled scratch content may always be abandoned.
    fn handle_quit_command(&mut self)
        requires
            old(self).wf(),
        ensures
            final(self).wf(),
            final(self).spec_view() == old(self).spec_view(),
            final(self).spec_prompt() == old(self).spec_prompt(),
            final(self).spec_commandbar() == old(self).spec_commandbar(),
            final(self).spec_should_quit() == (old(self).spec_should_quit() || spec_quit_allowed(
                old(self).spec_view(),
            )),
            spec_quit_allowed(old(self).spec_view()) ==> final(self).spec_hintbar().spec_hint()
                == "[ HINT ] :: "@ + "[ Quitting ]"@,
            !spec_quit_allowed(old(self).spec_view()) ==> final(self).spec_hintbar().spec_hint()
                == "[ HINT ] :: "@ + "[ Error quitting. The file has unsaved changes ]"@,
    {
        let status = self.view.get_current_status();
        let untitled = status.file_name.eq(&"No file open".to_owned());
        if !status.modified || untitled {
            self.hintbar.update_hint("[ Quitting ]");
            self.should_quit = true;
        } else {
            self.hintbar.update_hint("[ Error quitting. The file has unsaved changes ]");
        }
    }

    /// Resize every widget for a new terminal size: the view gets all
    /// but the two bar rows.
    pub fn handle_resize_command(&mut self, size: Size)
        requires
            old(self).wf(),
        ensures
            final(self).wf(),
            spec_resized(*old(self), *final(self), size),
    {
        let bar_size = Size { width: size.width, height: 1 };
        self.terminal_size = size;
        self.view.resize(
            Size {
                width: size.width,
                height: if size.height >= 2 {
                    size.height - 2
                } else {
                    0
                },
            },
        );
        self.hintbar.resize(bar_size);
        self.statusbar.resize(bar_size);
        self.commandbar.resize(bar_size);
    }

    fn set_prompt(&mut self, prompt_type: PromptType)
        requires
            old(self).wf(),
        ensures
            final(self).wf(),
            final(self).spec_prompt() == prompt_type,
            final(self).spec_should_quit() == old(self).spec_should_quit(),
            final(self).spec_commandbar().spec_value()@ == Seq::<char>::empty(),
            final(self).spec_hintbar().spec_hint() == old(self).spec_hintbar().spec_hint(),
            prompt_type == PromptType::Search ==> {
                &&& spec_search_entered(old(self).spec_view(), final(self).spec_view())
                &&& final(self).spec_commandbar().spec_prompt() == "[ COMMAND ] :: Search: "@
            },
            prompt_type == PromptType::Save ==> {
                &&& final(self).spec_view() == old(self).spec_view()
                &&& final(self).spec_commandbar().spec_prompt() == "[ COMMAND ] :: Save as: "@
            },
            prompt_type == PromptType::NoPrompt ==> {
                &&& final(self).spec_view() == old(self).spec_view()
                &&& final(self).spec_commandbar().spec_prompt() == old(
                    self,
                ).spec_commandbar().spec_prompt()
            },
    {
        match prompt_type {
            PromptType::Search => {
                self.view.enter_search();
                self.commandbar.set_prompt("[ COMMAND ] :: Search: ");
            },
            PromptType::Save => {
                self.commandbar.set_prompt("[ COMMAND ] :: Save as: ");
            },
            PromptType::NoPrompt => {
                self.hintbar.set_needs_redraw(true);
            },
        }
        self.commandbar.clear_value();
        self.prompt_type = prompt_type;
    }

    /// Push the current status snapshot to the status bar; a changed
    /// window title is handed back for the application to apply.
    pub fn update_status(&mut self) -> (r: Option<String>)
        requires
            old(self).wf(),
        ensures
            final(self).wf(),
            final(self).spec_view() == old(self).spec_view(),
            final(self).spec_should_quit() == old(self).spec_should_quit(),
            final(self).spec_prompt() == old(self).spec_prompt(),
            ({
                let title = "Rsedit - "@ + spec_file_label(
                    old(self).spec_view().spec_buffer().spec_path(),
                );
                &&& (r is Some <==> title != old(self).spec_title())
                &&& (r matches Some(t) ==> t@ == title)
            }),
    {
        let status = self.view.get_current_status();
        let mut title = "Rsedit - ".to_owned();
        title.append(status.file_name.as_str());
        self.statusbar.update_status(status);
        if !title.eq(&self.title) {
            Some(title)
        } else {
            None
        }
    }

    /// Record that the application applied the given window title.
    pub fn confirm_title(&mut self, title: &str)
        requires
            old(self).wf(),
        ensures
            final(self).wf(),
            final(self).spec_title() == title@,
            final(self).spec_view() == old(self).spec_view(),
            final(self).spec_should_quit() == old(self).spec_should_quit(),
            final(self).spec_prompt() == old(self).spec_prompt(),
    {
        self.title = title.to_owned();
    }

    /// Assemble the frame: each widget that needs repainting
    /// contributes its rows, and the cursor lands in the prompt bar or
    /// at the view's cursor position.  A degenerate terminal draws
    /// nothing.
    pub fn update_screen(&mut self) -> (r: Option<RenderPlan>)
        requires
            old(self).wf(),
        ensures
            final(self).wf(),
            final(self).spec_view().spec_buffer() == old(self).spec_view().spec_buffer(),
            final(self).spec_view().spec_location() == old(self).spec_view().spec_location(),
            final(self).spec_view().spec_scroll() == old(self).spec_view().spec_scroll(),
            final(self).spec_should_quit() == old(self).spec_should_quit(),
            final(self).spec_prompt() == old(self).spec_prompt(),
            r is Some <==> (old(self).spec_terminal_size().width > 0 && old(
                self,
            ).spec_terminal_size().height > 0),
            r matches Some(plan) ==> plan.cursor == (if old(self).spec_prompt()
                != PromptType::NoPrompt {
                Position {
                    column: vstd::math::min(
                        crate::annotatedstring::sat_add_spec(
                            old(self).spec_commandbar().spec_prompt().len() as int,
                            old(self).spec_commandbar().spec_value().spec_grapheme_count() as int,
                        ),
                        old(self).spec_commandbar().spec_size().width as int,
                    ) as usize,
                    row: (old(self).spec_terminal_size().height - 1) as usize,
                }
            } else {
                let (col, row) = crate::view::location_position(
                    old(self).spec_view().spec_lines(),
                    old(self).spec_view().spec_location(),
                );
                Position {
                    column: sat_sub_spec(col, old(self).spec_view().spec_scroll().column as int) as usize,
                    row: sat_sub_spec(row, old(self).spec_view().spec_scroll().row as int) as usize,
                }
            }),
    {
        let width = self.terminal_size.width;
        let height = self.terminal_size.height;
        if width == 0 || height == 0 {
            return None;
        }
        let mut patches: Vec<ScreenPatch> = Vec::new();
        let status_row = if height >= 2 {
            height - 2
        } else {
            0
        };
        match self.statusbar.render() {
            Some(text) => patches.push(ScreenPatch::Inverted(status_row, text)),
            None => {},
        }
        if height > 1 {
            let bar_row = height - 1;
            if self.is_in_prompt() {
                match self.commandbar.render() {
                    Some(text) => patches.push(ScreenPatch::Plain(bar_row, text)),
                    None => {},
                }
            } else {
                match self.hintbar.render() {
                    Some(text) => patches.push(ScreenPatch::Plain(bar_row, text)),
                    None => {},
                }
            }
        }
        if height > 2 {
            match self.view.render(0) {
                Some(mut rows) => {
                    let n = rows.len();
                    let mut row_index: usize = 0;
                    while row_index < n
                        invariant
                            row_index <= n,
                            rows@.len() == n - row_index,
                            self.wf(),
                        decreases n - row_index,
                    {
                        let rc = rows.remove(0);
                        match rc {
                            RowContent::Annotated(a) => {
                                patches.push(ScreenPatch::Annotated(row_index, a));
                            },
                            RowContent::Plain(s) => {
                                patches.push(ScreenPatch::Plain(row_index, s));
                            },
                        }
                        row_index = row_index + 1;
                    }
                },
                None => {},
            }
        }
        let cursor = if self.is_in_prompt() {
            Position { column: self.commandbar.get_cursor_column(), row: height - 1 }
        } else {
            self.view.get_cursor_position()
        };
        Some(RenderPlan { patches, cursor })
    }
}

} // verus!
