use rsedit::commands::{Edit, Move};
use rsedit::position::{Position, Size};
use rsedit::view::{RowContent, View};

fn sized_view(contents: &str, width: usize, height: usize) -> View {
    let mut v = View::default();
    v.load("t.txt", contents);
    v.resize(Size { width, height });
    v
}

#[test]
fn scroll_right_edge_then_snap_back() {
    // Viewport width 10; moving the cursor to column 15 scrolls the
    // offset to 6 (cursor exactly at the right edge, screen column 9);
    // moving back to column 3 pulls the offset to 3 (screen column 0).
    let mut v = sized_view("abcdefghijklmnopqrst", 10, 5);
    for _ in 0..15 {
        v.handle_move_command(Move::Right);
    }
    assert_eq!(v.get_cursor_position(), Position { column: 9, row: 0 });
    for _ in 0..12 {
        v.handle_move_command(Move::Left);
    }
    assert_eq!(v.get_cursor_position(), Position { column: 0, row: 0 });
}

#[test]
fn vertical_move_snaps_to_shorter_line() {
    let mut v = sized_view("longest\nab\nmedium", 20, 10);
    v.handle_move_command(Move::EndOfLine);
    assert_eq!(v.get_cursor_position(), Position { column: 7, row: 0 });
    v.handle_move_command(Move::Down);
    // The grapheme index snaps to the end of "ab".
    assert_eq!(v.get_cursor_position(), Position { column: 2, row: 1 });
}

#[test]
fn right_at_line_end_wraps_to_next_line() {
    let mut v = sized_view("ab\ncd", 20, 10);
    v.handle_move_command(Move::EndOfLine);
    v.handle_move_command(Move::Right);
    assert_eq!(v.get_cursor_position(), Position { column: 0, row: 1 });
}

#[test]
fn left_at_line_start_wraps_to_previous_end() {
    let mut v = sized_view("ab\ncd", 20, 10);
    v.handle_move_command(Move::Down);
    v.handle_move_command(Move::Left);
    assert_eq!(v.get_cursor_position(), Position { column: 2, row: 0 });
}

#[test]
fn right_at_document_end_stays_put() {
    let mut v = sized_view("ab", 20, 10);
    v.handle_move_command(Move::EndOfLine);
    v.handle_move_command(Move::Right);
    // One step moves to the append line below; a further step stays.
    assert_eq!(v.get_cursor_position(), Position { column: 0, row: 1 });
    v.handle_move_command(Move::Right);
    assert_eq!(v.get_cursor_position(), Position { column: 0, row: 1 });
}

#[test]
fn page_moves_step_by_viewport_height() {
    // With a four-row viewport a page move steps three lines, which
    // stays inside the visible window, so no scroll happens.
    let mut v = sized_view("a\nb\nc\nd\ne\nf\ng\nh", 20, 4);
    v.handle_move_command(Move::PageDown);
    assert_eq!(v.get_cursor_position().row, 3);
    v.handle_move_command(Move::PageUp);
    assert_eq!(v.get_cursor_position().row, 0);
}

#[test]
fn typing_inserts_and_advances() {
    let mut v = sized_view("", 20, 10);
    v.handle_edit_command(Edit::InsertCharacter('h'));
    v.handle_edit_command(Edit::InsertCharacter('i'));
    assert_eq!(v.save_content(), "hi\n");
    assert_eq!(v.get_cursor_position(), Position { column: 2, row: 0 });
}

#[test]
fn tab_inserts_four_spaces() {
    let mut v = sized_view("", 20, 10);
    v.handle_edit_command(Edit::InsertTab);
    assert_eq!(v.save_content(), "    \n");
    assert_eq!(v.get_cursor_position(), Position { column: 4, row: 0 });
}

#[test]
fn enter_splits_line_and_moves_down() {
    let mut v = sized_view("abcd", 20, 10);
    v.handle_move_command(Move::Right);
    v.handle_move_command(Move::Right);
    v.handle_edit_command(Edit::InsertLine);
    assert_eq!(v.save_content(), "ab\ncd\n");
    assert_eq!(v.get_cursor_position(), Position { column: 0, row: 1 });
}

#[test]
fn backspace_at_line_start_merges_lines() {
    let mut v = sized_view("ab\ncd", 20, 10);
    v.handle_move_command(Move::Down);
    v.handle_edit_command(Edit::DeletePrevious);
    assert_eq!(v.save_content(), "abcd\n");
    assert_eq!(v.get_cursor_position(), Position { column: 2, row: 0 });
}

#[test]
fn delete_next_removes_under_cursor() {
    let mut v = sized_view("abc", 20, 10);
    v.handle_edit_command(Edit::DeleteNext);
    assert_eq!(v.save_content(), "bc\n");
    assert_eq!(v.get_cursor_position(), Position { column: 0, row: 0 });
}

#[test]
fn empty_view_draws_welcome_and_tildes() {
    let v = sized_view_empty(30, 9);
    let rows = v.draw_rows(0);
    assert_eq!(rows.len(), 9);
    for (i, row) in rows.iter().enumerate() {
        match row {
            RowContent::Plain(s) => {
                if i == 3 {
                    assert_eq!(s, "~     Welcome to Rsedit!      ");
                } else {
                    assert_eq!(s, "~");
                }
            },
            RowContent::Annotated(_) => panic!("unexpected annotated row"),
        }
    }
}

fn sized_view_empty(width: usize, height: usize) -> View {
    let mut v = View::default();
    v.resize(Size { width, height });
    v
}

#[test]
fn narrow_welcome_is_a_tilde() {
    let v = sized_view_empty(10, 9);
    let rows = v.draw_rows(0);
    match &rows[3] {
        RowContent::Plain(s) => assert_eq!(s, "~"),
        RowContent::Annotated(_) => panic!("unexpected annotated row"),
    }
}

#[test]
fn loaded_view_draws_lines_and_tildes() {
    let v = sized_view("one\ntwo", 10, 4);
    let rows = v.draw_rows(0);
    assert_eq!(rows.len(), 4);
    match &rows[0] {
        RowContent::Annotated(a) => assert_eq!(a.to_string(), "one"),
        RowContent::Plain(_) => panic!("expected annotated row"),
    }
    match &rows[2] {
        RowContent::Plain(s) => assert_eq!(s, "~"),
        RowContent::Annotated(_) => panic!("expected plain row"),
    }
}
