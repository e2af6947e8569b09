use rsedit::buffer::Buffer;
use rsedit::position::Location;

fn loc(line_index: usize, grapheme_index: usize) -> Location {
    Location { line_index, grapheme_index }
}

fn line_text(b: &Buffer, i: usize) -> String {
    b.line_at(i).content()
}

#[test]
fn load_splits_on_newlines() {
    let b = Buffer::load("t.txt", "one\ntwo\nthree");
    assert_eq!(b.height(), 3);
    assert_eq!(line_text(&b, 0), "one");
    assert_eq!(line_text(&b, 1), "two");
    assert_eq!(line_text(&b, 2), "three");
    assert!(b.is_file_loaded());
    assert!(!b.is_modified());
}

#[test]
fn load_strips_carriage_returns_and_trailing_newline() {
    let b = Buffer::load("t.txt", "one\r\ntwo\n");
    assert_eq!(b.height(), 2);
    assert_eq!(line_text(&b, 0), "one");
    assert_eq!(line_text(&b, 1), "two");
}

#[test]
fn load_empty_text_gives_empty_buffer() {
    let b = Buffer::load("t.txt", "");
    assert_eq!(b.height(), 0);
    assert!(b.is_empty());
}

#[test]
fn save_content_appends_newlines() {
    let b = Buffer::load("t.txt", "one\ntwo");
    assert_eq!(b.save_content(), "one\ntwo\n");
}

#[test]
fn insert_char_in_line_marks_modified() {
    let mut b = Buffer::load("t.txt", "abc");
    b.insert_char('x', loc(0, 1));
    assert_eq!(line_text(&b, 0), "axbc");
    assert!(b.is_modified());
}

#[test]
fn insert_char_at_document_end_appends_line() {
    let mut b = Buffer::load("t.txt", "abc");
    b.insert_char('z', loc(1, 0));
    assert_eq!(b.height(), 2);
    assert_eq!(line_text(&b, 1), "z");
}

#[test]
fn insert_char_far_out_of_range_is_noop() {
    let mut b = Buffer::load("t.txt", "abc");
    b.insert_char('z', loc(9, 0));
    assert_eq!(b.height(), 1);
    assert!(!b.is_modified());
}

#[test]
fn insert_line_splits_at_grapheme() {
    let mut b = Buffer::load("t.txt", "hello world");
    b.insert_line(loc(0, 5));
    assert_eq!(b.height(), 2);
    assert_eq!(line_text(&b, 0), "hello");
    assert_eq!(line_text(&b, 1), " world");
}

#[test]
fn remove_char_at_line_end_merges_next_line() {
    let mut b = Buffer::load("t.txt", "one\ntwo");
    b.remove_char(loc(0, 3));
    assert_eq!(b.height(), 1);
    assert_eq!(line_text(&b, 0), "onetwo");
}

#[test]
fn remove_char_at_document_end_is_noop() {
    let mut b = Buffer::load("t.txt", "one");
    b.remove_char(loc(0, 3));
    assert_eq!(line_text(&b, 0), "one");
    assert!(!b.is_modified());
}

#[test]
fn search_next_wraps_around() {
    // From just after the first match, the forward search finds the
    // match on the last line, and a further step wraps back to the
    // first line.
    let b = Buffer::load("t.txt", "foo\nbar\nfoo");
    let first = b.search_next("foo", loc(0, 1));
    assert_eq!(first, Some(loc(2, 0)));
    let wrapped = b.search_next("foo", loc(2, 1));
    assert_eq!(wrapped, Some(loc(0, 0)));
}

#[test]
fn search_next_empty_query_never_matches() {
    let b = Buffer::load("t.txt", "foo\nbar");
    assert_eq!(b.search_next("", loc(0, 0)), None);
}

#[test]
fn search_next_absent_query() {
    let b = Buffer::load("t.txt", "foo\nbar");
    assert_eq!(b.search_next("zap", loc(0, 0)), None);
}

#[test]
fn search_previous_wraps_backward() {
    let b = Buffer::load("t.txt", "foo\nbar\nfoo");
    let hit = b.search_previous("foo", loc(0, 0));
    assert_eq!(hit, Some(loc(2, 0)));
    let back = b.search_previous("bar", loc(0, 0));
    assert_eq!(back, Some(loc(1, 0)));
}

#[test]
fn search_finds_match_mid_line() {
    let b = Buffer::load("t.txt", "xxabx\nxab");
    assert_eq!(b.search_next("ab", loc(0, 0)), Some(loc(0, 2)));
    assert_eq!(b.search_next("ab", loc(0, 3)), Some(loc(1, 1)));
}

#[test]
fn file_label_is_base_name() {
    let b = Buffer::load("dir/sub/name.txt", "x");
    assert_eq!(b.file_label(), "name.txt");
}

#[test]
fn untitled_buffer_label() {
    let b = Buffer::default();
    assert_eq!(b.file_label(), "No file open");
    assert!(!b.is_file_loaded());
}

#[test]
fn mark_saved_clears_modified() {
    let mut b = Buffer::load("t.txt", "abc");
    b.insert_char('x', loc(0, 0));
    assert!(b.is_modified());
    b.mark_saved();
    assert!(!b.is_modified());
    b.insert_char('y', loc(0, 0));
    b.mark_saved_as("other.txt");
    assert!(!b.is_modified());
    assert_eq!(b.file_label(), "other.txt");
}

#[test]
fn lone_carriage_return_is_kept() {
    let b = Buffer::load("t.txt", "a\rb\nc");
    assert_eq!(b.height(), 2);
    assert_eq!(line_text(&b, 0), "a\rb");
    assert_eq!(line_text(&b, 1), "c");
}
