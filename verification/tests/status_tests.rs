use rsedit::filestatus::{usize_to_string, FileStatus};
use rsedit::position::Size;
use rsedit::uielements::{HintBar, StatusBar, UIElement};

fn status(lines: usize, current: usize, modified: bool, name: &str) -> FileStatus {
    FileStatus {
        lines_count: lines,
        current_line_index: current,
        modified,
        file_name: name.to_string(),
    }
}

#[test]
fn decimal_rendering() {
    assert_eq!(usize_to_string(0), "0");
    assert_eq!(usize_to_string(7), "7");
    assert_eq!(usize_to_string(10), "10");
    assert_eq!(usize_to_string(120), "120");
    assert_eq!(usize_to_string(98765), "98765");
}

#[test]
fn status_indicator_strings() {
    let st = status(3, 0, true, "a.txt");
    assert_eq!(st.modified_indicator_to_string(), "Modified");
    assert_eq!(st.lines_count_to_string(), "3 lines");
    assert_eq!(st.position_indicator_to_string(), "1:3");
    let st1 = status(1, 0, false, "a.txt");
    assert_eq!(st1.modified_indicator_to_string(), "Not modified");
    assert_eq!(st1.lines_count_to_string(), "1 line");
}

#[test]
fn status_row_layout() {
    let mut bar = StatusBar::default();
    bar.resize(Size { width: 60, height: 1 });
    bar.update_status(status(2, 0, false, "a.txt"));
    let row = bar.draw_text();
    assert_eq!(row.len(), 60);
    assert!(row.starts_with("[ STATUS ] :: [ a.txt ] [ Not modified ]"));
    assert!(row.ends_with(" [ 1:2 ] [ 2 lines ]"));
}

#[test]
fn overlong_status_row_is_empty() {
    let mut bar = StatusBar::default();
    bar.resize(Size { width: 10, height: 1 });
    bar.update_status(status(2, 0, false, "a.txt"));
    assert_eq!(bar.draw_text(), "");
}

#[test]
fn unchanged_status_keeps_redraw_flag_clear() {
    let mut bar = StatusBar::default();
    bar.resize(Size { width: 60, height: 1 });
    bar.update_status(status(2, 0, false, "a.txt"));
    bar.set_needs_redraw(false);
    bar.update_status(status(2, 0, false, "a.txt"));
    assert!(!bar.get_needs_redraw());
    bar.update_status(status(3, 0, false, "a.txt"));
    assert!(bar.get_needs_redraw());
}

#[test]
fn hint_bar_wraps_hints() {
    let mut bar = HintBar::default();
    assert_eq!(bar.draw_text(), "[ Control + S -> Save ] [ Control + Q -> Quit ]");
    bar.update_hint("[ Quitting ]");
    assert_eq!(bar.draw_text(), "[ HINT ] :: [ Quitting ]");
}
