use rsedit::commands::{Command, Edit, KeyCode, KeyModifiers, KeyPress, Move, System};
use rsedit::editor::{Editor, EditorAction, RenderPlan};
use rsedit::position::{Position, Size};

fn editor_with(contents: &str) -> Editor {
    let mut e = Editor::new(Size { width: 40, height: 10 });
    e.open_file("t.txt", contents);
    e
}

fn cursor(e: &mut Editor) -> Position {
    let plan: RenderPlan = e.update_screen().expect("terminal has a size");
    plan.cursor
}

#[test]
fn quit_guard_refuses_modified_named_file() {
    let mut e = editor_with("hello");
    e.process_command(Command::Edit(Edit::InsertCharacter('x')));
    e.process_command(Command::System(System::Quit));
    assert!(!e.should_quit());
}

#[test]
fn quit_guard_allows_unmodified_named_file() {
    let mut e = editor_with("hello");
    e.process_command(Command::System(System::Quit));
    assert!(e.should_quit());
}

#[test]
fn quit_guard_allows_untitled_buffer() {
    let mut e = Editor::new(Size { width: 40, height: 10 });
    e.process_command(Command::Edit(Edit::InsertCharacter('x')));
    e.process_command(Command::System(System::Quit));
    assert!(e.should_quit());
}

#[test]
fn right_at_line_end_then_backspace_merges_losslessly() {
    // Loading a three-line file, Right at the end of the first line
    // moves the cursor to the start of the second; Backspace there
    // merges the second line back into the first.
    let mut e = editor_with("one\ntwo\nthree");
    e.process_command(Command::Move(Move::EndOfLine));
    e.process_command(Command::Move(Move::Right));
    assert_eq!(cursor(&mut e), Position { column: 0, row: 1 });
    e.process_command(Command::Edit(Edit::DeletePrevious));
    assert_eq!(cursor(&mut e), Position { column: 3, row: 0 });
    assert_eq!(e.save_content(), "onetwo\nthree\n");
}

#[test]
fn save_prompt_flow_names_the_file() {
    let mut e = Editor::new(Size { width: 40, height: 10 });
    e.process_command(Command::Edit(Edit::InsertCharacter('x')));
    let opened = e.process_command(Command::System(System::Save));
    assert!(matches!(opened, EditorAction::Nothing));
    assert!(e.is_in_prompt());
    e.process_command(Command::Edit(Edit::InsertCharacter('f')));
    e.process_command(Command::Edit(Edit::InsertCharacter('.')));
    e.process_command(Command::Edit(Edit::InsertCharacter('t')));
    let action = e.process_command(Command::Edit(Edit::InsertLine));
    match action {
        EditorAction::SaveFileAs(name) => assert_eq!(name, "f.t"),
        _ => panic!("expected a save-as action"),
    }
    assert!(!e.is_in_prompt());
    e.on_save_result(Some("f.t"), true);
    e.process_command(Command::System(System::Quit));
    assert!(e.should_quit());
}

#[test]
fn save_with_file_loaded_is_direct() {
    let mut e = editor_with("hello");
    e.process_command(Command::Edit(Edit::InsertCharacter('x')));
    let action = e.process_command(Command::System(System::Save));
    assert!(matches!(action, EditorAction::SaveFile));
    e.on_save_result(None, true);
    e.process_command(Command::System(System::Quit));
    assert!(e.should_quit());
}

#[test]
fn failed_save_keeps_buffer_modified() {
    let mut e = editor_with("hello");
    e.process_command(Command::Edit(Edit::InsertCharacter('x')));
    let action = e.process_command(Command::System(System::Save));
    assert!(matches!(action, EditorAction::SaveFile));
    e.on_save_result(None, false);
    e.process_command(Command::System(System::Quit));
    assert!(!e.should_quit());
}

#[test]
fn save_prompt_dismiss_cancels() {
    let mut e = Editor::new(Size { width: 40, height: 10 });
    e.process_command(Command::System(System::Save));
    assert!(e.is_in_prompt());
    let action = e.process_command(Command::System(System::Dismiss));
    assert!(matches!(action, EditorAction::Nothing));
    assert!(!e.is_in_prompt());
}

#[test]
fn search_prompt_moves_cursor_to_match() {
    let mut e = editor_with("alpha\nbeta\ngamma");
    e.process_command(Command::System(System::Search));
    assert!(e.is_in_prompt());
    e.process_command(Command::Edit(Edit::InsertCharacter('g')));
    e.process_command(Command::Edit(Edit::InsertLine));
    assert!(!e.is_in_prompt());
    // The viewport centered on the match; the cursor sits on "gamma".
    let plan = e.update_screen().expect("terminal has a size");
    let pos = plan.cursor;
    assert_eq!(e.save_content(), "alpha\nbeta\ngamma\n");
    assert_eq!(pos.column, 0);
}

#[test]
fn search_dismiss_restores_position() {
    let mut e = editor_with("alpha\nbeta\ngamma");
    let before = cursor(&mut e);
    e.process_command(Command::System(System::Search));
    e.process_command(Command::Edit(Edit::InsertCharacter('g')));
    e.process_command(Command::System(System::Dismiss));
    assert!(!e.is_in_prompt());
    assert_eq!(cursor(&mut e), before);
}

#[test]
fn resize_reaches_every_mode() {
    let mut e = editor_with("hello");
    e.process_command(Command::System(System::Search));
    let action = e.process_command(Command::System(System::Resize(Size {
        width: 20,
        height: 6,
    })));
    assert!(matches!(action, EditorAction::Nothing));
    // Still in the search prompt: resize never closes it.
    assert!(e.is_in_prompt());
}

#[test]
fn search_requests_ignored_inside_prompt() {
    let mut e = editor_with("hello");
    e.process_command(Command::System(System::Search));
    e.process_command(Command::System(System::Save));
    e.process_command(Command::System(System::Quit));
    assert!(e.is_in_prompt());
    assert!(!e.should_quit());
}

#[test]
fn update_status_reports_title_once() {
    let mut e = editor_with("hello");
    let title = e.update_status();
    assert_eq!(title.as_deref(), Some("Rsedit - t.txt"));
    e.confirm_title("Rsedit - t.txt");
    assert_eq!(e.update_status(), None);
}

#[test]
fn degenerate_terminal_draws_nothing() {
    let mut e = Editor::new(Size { width: 0, height: 0 });
    assert!(e.update_screen().is_none());
}

#[test]
fn classifier_maps_control_chords() {
    let quit = KeyPress { code: KeyCode::Char('q'), modifiers: KeyModifiers::Control };
    assert!(matches!(Command::from_key(quit), Some(Command::System(System::Quit))));
    let save = KeyPress { code: KeyCode::Char('s'), modifiers: KeyModifiers::Control };
    assert!(matches!(Command::from_key(save), Some(Command::System(System::Save))));
    let find = KeyPress { code: KeyCode::Char('f'), modifiers: KeyModifiers::Control };
    assert!(matches!(Command::from_key(find), Some(Command::System(System::Search))));
    let esc = KeyPress { code: KeyCode::Esc, modifiers: KeyModifiers::Plain };
    assert!(matches!(Command::from_key(esc), Some(Command::System(System::Dismiss))));
}

#[test]
fn classifier_maps_text_and_moves() {
    let ch = KeyPress { code: KeyCode::Char('a'), modifiers: KeyModifiers::Plain };
    assert!(matches!(
        Command::from_key(ch),
        Some(Command::Edit(Edit::InsertCharacter('a')))
    ));
    let shifted = KeyPress { code: KeyCode::Char('A'), modifiers: KeyModifiers::Shift };
    assert!(matches!(
        Command::from_key(shifted),
        Some(Command::Edit(Edit::InsertCharacter('A')))
    ));
    let up = KeyPress { code: KeyCode::Up, modifiers: KeyModifiers::Plain };
    assert!(matches!(Command::from_key(up), Some(Command::Move(Move::Up))));
    let home = KeyPress { code: KeyCode::Home, modifiers: KeyModifiers::Plain };
    assert!(matches!(Command::from_key(home), Some(Command::Move(Move::StartOfLine))));
    let unknown = KeyPress { code: KeyCode::Other, modifiers: KeyModifiers::Plain };
    assert!(Command::from_key(unknown).is_none());
    let ctrl_move = KeyPress { code: KeyCode::Up, modifiers: KeyModifiers::Control };
    assert!(Command::from_key(ctrl_move).is_none());
}

#[test]
fn classifier_maps_resize() {
    let cmd = Command::from_resize(80, 24);
    match cmd {
        Command::System(System::Resize(size)) => {
            assert_eq!(size.width, 80);
            assert_eq!(size.height, 24);
        },
        _ => panic!("expected a resize command"),
    }
}

#[test]
fn search_steps_wrap_through_document() {
    // With the query live, Down repeats the search forward and wraps
    // past the end of the document back to the first line.
    let mut e = editor_with("foo\nbar\nfoo");
    e.process_command(Command::System(System::Search));
    e.process_command(Command::Edit(Edit::InsertCharacter('f')));
    e.process_command(Command::Edit(Edit::InsertCharacter('o')));
    e.process_command(Command::Edit(Edit::InsertCharacter('o')));
    // The live search finds the match on the first line.
    e.process_command(Command::Move(Move::Down));
    // Now at the match on the last line; one more step wraps around.
    e.process_command(Command::Move(Move::Down));
    e.process_command(Command::Edit(Edit::InsertLine));
    let pos = cursor(&mut e);
    assert_eq!(pos, Position { column: 0, row: 0 });
}

#[test]
fn command_bar_cursor_sits_after_prompt_and_value() {
    let mut e = Editor::new(Size { width: 40, height: 10 });
    e.process_command(Command::System(System::Search));
    e.process_command(Command::Edit(Edit::InsertCharacter('a')));
    e.process_command(Command::Edit(Edit::InsertCharacter('b')));
    let pos = cursor(&mut e);
    // "[ COMMAND ] :: Search: " is 23 columns, plus two typed graphemes.
    assert_eq!(pos, Position { column: 25, row: 9 });
}

#[test]
fn backspace_edits_prompt_value() {
    let mut e = Editor::new(Size { width: 40, height: 10 });
    e.process_command(Command::System(System::Save));
    e.process_command(Command::Edit(Edit::InsertCharacter('a')));
    e.process_command(Command::Edit(Edit::InsertCharacter('b')));
    e.process_command(Command::Edit(Edit::DeletePrevious));
    let action = e.process_command(Command::Edit(Edit::InsertLine));
    match action {
        EditorAction::SaveFileAs(name) => assert_eq!(name, "a"),
        _ => panic!("expected a save-as action"),
    }
}
