//! The abstract commands the editor consumes, and the classifier that
//! turns an already-decoded key press into one of them.

use vstd::prelude::*;
use crate::position::Size;

verus! {

/// A decoded key: which key, with which modifier held.
#[derive(Clone, Copy, Debug, PartialEq, Eq, Structural)]
pub enum KeyCode {
    Char(char),
    Tab,
    Enter,
    Backspace,
    Delete,
    Left,
    Right,
    Up,
    Down,
    Home,
    End,
    PageUp,
    PageDown,
    Esc,
    Other,
}

#[derive(Clone, Copy, Debug, PartialEq, Eq, Structural)]
pub enum KeyModifiers {
    Plain,
    Shift,
    Control,
    Other,
}

#[derive(Clone, Copy, Debug, PartialEq, Eq, Structural)]
pub struct KeyPress {
    pub code: KeyCode,
    pub modifiers: KeyModifiers,
}

/// Cursor movement commands.
#[derive(Clone, Copy, Debug, PartialEq, Eq, Structural)]
pub enum Move {
    PageUp,
    PageDown,
    StartOfLine,
    EndOfLine,
    Up,
    Left,
    Right,
    Down,
}

/// Text mutation commands.
#[derive(Clone, Copy, Debug, PartialEq, Eq, Structural)]
pub enum Edit {
    InsertCharacter(char),
    InsertTab,
    InsertLine,
    DeletePrevious,
    DeleteNext,
}

/// Editor-level commands.
#[derive(Clone, Copy, Debug, PartialEq, Eq, Structural)]
pub enum System {
    Save,
    Resize(Size),
    Quit,
    Dismiss,
    Search,
}

#[derive(Clone, Copy, Debug, PartialEq, Eq, Structural)]
pub enum Command {
    Move(Move),
    Edit(Edit),
    System(System),
}

/// The edit command a key press stands for: printable characters
/// (shifted or not), tab, enter, backspace and delete.
pub open spec fn spec_edit_of(k: KeyPress) -> Option<Edit> {
    match (k.code, k.modifiers) {
        (KeyCode::Char(c), KeyModifiers::Plain) => Some(Edit::InsertCharacter(c)),
        (KeyCode::Char(c), KeyModifiers::Shift) => Some(Edit::InsertCharacter(c)),
        (KeyCode::Tab, KeyModifiers::Plain) => Some(Edit::InsertTab),
        (KeyCode::Enter, KeyModifiers::Plain) => Some(Edit::InsertLine),
        (KeyCode::Backspace, KeyModifiers::Plain) => Some(Edit::DeletePrevious),
        (KeyCode::Delete, KeyModifiers::Plain) => Some(Edit::DeleteNext),
        _ => None::<Edit>,
    }
}

/// The movement command an unmodified key press stands for.
pub open spec fn spec_move_of(k: KeyPress) -> Option<Move> {
    if k.modifiers == KeyModifiers::Plain {
        match k.code {
            KeyCode::Up => Some(Move::Up),
            KeyCode::Down => Some(Move::Down),
            KeyCode::Left => Some(Move::Left),
            KeyCode::Right => Some(Move::Right),
            KeyCode::PageDown => Some(Move::PageDown),
            KeyCode::PageUp => Some(Move::PageUp),
            KeyCode::Home => Some(Move::StartOfLine),
            KeyCode::End => Some(Move::EndOfLine),
            _ => None::<Move>,
        }
    } else {
        None::<Move>
    }
}

/// The system command a key press stands for: the control chords and
/// escape.
pub open spec fn spec_system_of(k: KeyPress) -> Option<System> {
    if k.modifiers == KeyModifiers::Control {
        match k.code {
            KeyCode::Char(c) => if c == 'q' {
                Some(System::Quit)
            } else if c == 's' {
                Some(System::Save)
            } else if c == 'f' {
                Some(System::Search)
            } else {
                None::<System>
            },
            _ => None::<System>,
        }
    } else if k.code == KeyCode::Esc && k.modifiers == KeyModifiers::Plain {
        Some(System::Dismiss)
    } else {
        None::<System>
    }
}

/// The command a key press stands for: an edit first, then a movement,
/// then a system command.
pub open spec fn spec_command_of(k: KeyPress) -> Option<Command> {
    match spec_edit_of(k) {
        Some(e) => Some(Command::Edit(e)),
        None => match spec_move_of(k) {
            Some(m) => Some(Command::Move(m)),
            None => match spec_system_of(k) {
                Some(s) => Some(Command::System(s)),
                None => None::<Command>,
            },
        },
    }
}

impl Edit {
    pub fn from_key(k: KeyPress) -> (r: Option<Edit>)
        ensures
            r == spec_edit_of(k),
    {
        match (k.code, k.modifiers) {
            (KeyCode::Char(c), KeyModifiers::Plain) => Some(Edit::InsertCharacter(c)),
            (KeyCode::Char(c), KeyModifiers::Shift) => Some(Edit::InsertCharacter(c)),
            (KeyCode::Tab, KeyModifiers::Plain) => Some(Edit::InsertTab),
            (KeyCode::Enter, KeyModifiers::Plain) => Some(Edit::InsertLine),
            (KeyCode::Backspace, KeyModifiers::Plain) => Some(Edit::DeletePrevious),
            (KeyCode::Delete, KeyModifiers::Plain) => Some(Edit::DeleteNext),
            _ => None,
        }
    }
}

impl Move {
    pub fn from_key(k: KeyPress) -> (r: Option<Move>)
        ensures
            r == spec_move_of(k),
    {
        match (k.code, k.modifiers) {
            (KeyCode::Up, KeyModifiers::Plain) => Some(Move::Up),
            (KeyCode::Down, KeyModifiers::Plain) => Some(Move::Down),
            (KeyCode::Left, KeyModifiers::Plain) => Some(Move::Left),
            (KeyCode::Right, KeyModifiers::Plain) => Some(Move::Right),
            (KeyCode::PageDown, KeyModifiers::Plain) => Some(Move::PageDown),
            (KeyCode::PageUp, KeyModifiers::Plain) => Some(Move::PageUp),
            (KeyCode::Home, KeyModifiers::Plain) => Some(Move::StartOfLine),
            (KeyCode::End, KeyModifiers::Plain) => Some(Move::EndOfLine),
            _ => None,
        }
    }
}

impl System {
    pub fn from_key(k: KeyPress) -> (r: Option<System>)
        ensures
            r == spec_system_of(k),
    {
        match (k.code, k.modifiers) {
            (KeyCode::Char(c), KeyModifiers::Control) => {
                if c == 'q' {
                    Some(System::Quit)
                } else if c == 's' {
                    Some(System::Save)
                } else if c == 'f' {
                    Some(System::Search)
                } else {
                    None
                }
            },
            (KeyCode::Esc, KeyModifiers::Plain) => Some(System::Dismiss),
            _ => None,
        }
    }
}

impl Command {
    /// Classify a key press.  Unrecognized input yields no command.
    pub fn from_key(k: KeyPress) -> (r: Option<Command>)
        ensures
            r == spec_command_of(k),
    {
        match Edit::from_key(k) {
            Some(e) => Some(Command::Edit(e)),
            None => match Move::from_key(k) {
                Some(m) => Some(Command::Move(m)),
                None => match System::from_key(k) {
                    Some(s) => Some(Command::System(s)),
                    None => None,
                },
            },
        }
    }

    /// The command a terminal resize event stands for.
    pub fn from_resize(width: usize, height: usize) -> (r: Command)
        ensures
            r == Command::System(System::Resize(Size { width, height })),
    {
        Command::System(System::Resize(Size { width, height }))
    }
}

} // verus!
