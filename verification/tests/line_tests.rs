use rsedit::annotatedstring::AnnotationType;
use rsedit::line::Line;

#[test]
fn grapheme_count_ascii() {
    let line = Line::from("hello");
    assert_eq!(line.grapheme_count(), 5);
    assert_eq!(line.content(), "hello");
}

#[test]
fn grapheme_count_empty() {
    let line = Line::from("");
    assert_eq!(line.grapheme_count(), 0);
    assert!(line.is_empty());
}

#[test]
fn grapheme_count_combining_clusters() {
    // a + combining inverted breve, e + combining acute, o + combining
    // diaeresis + combining low line, then a CRLF cluster.
    let line = Line::from("a\u{310}e\u{301}o\u{308}\u{332}\r\n");
    assert_eq!(line.grapheme_count(), 4);
}

#[test]
fn insert_then_remove_restores_content() {
    let mut line = Line::from("abc");
    line.insert_char('x', 1);
    assert_eq!(line.content(), "axbc");
    line.remove_char(1);
    assert_eq!(line.content(), "abc");
}

#[test]
fn insert_past_end_appends() {
    let mut line = Line::from("ab");
    line.insert_char('z', 99);
    assert_eq!(line.content(), "abz");
}

#[test]
fn append_char_and_remove_last() {
    let mut line = Line::from("hi");
    line.append_char('!');
    assert_eq!(line.content(), "hi!");
    line.remove_last_char();
    assert_eq!(line.content(), "hi");
    let mut empty = Line::from("");
    empty.remove_last_char();
    assert_eq!(empty.content(), "");
}

#[test]
fn split_then_append_reconstructs() {
    for at in 0..6 {
        let mut line = Line::from("hello");
        let rest = line.split(at);
        line.append(&rest);
        assert_eq!(line.content(), "hello");
    }
}

#[test]
fn split_at_invalid_index_is_noop() {
    let mut line = Line::from("hello");
    let rest = line.split(7);
    assert_eq!(line.content(), "hello");
    assert_eq!(rest.content(), "");
}

#[test]
fn split_in_middle() {
    let mut line = Line::from("hello world");
    let rest = line.split(6);
    assert_eq!(line.content(), "hello ");
    assert_eq!(rest.content(), "world");
}

#[test]
fn width_of_wide_characters() {
    // CJK characters render two columns wide.
    let line = Line::from("\u{597d}\u{597d}");
    assert_eq!(line.grapheme_count(), 2);
    assert_eq!(line.width(), 4);
    assert_eq!(line.width_until(1), 2);
}

#[test]
fn width_of_ascii() {
    let line = Line::from("abc");
    assert_eq!(line.width(), 3);
    assert_eq!(line.width_until(2), 2);
    assert_eq!(line.width_until(99), 3);
}

#[test]
fn tab_renders_as_space() {
    let line = Line::from("a\tb");
    assert_eq!(line.get_visible_graphemes(0, 10), "a b");
}

#[test]
fn visible_window_clips_half_width() {
    let line = Line::from("abcdef");
    assert_eq!(line.get_visible_graphemes(1, 5), "bcde");
    assert_eq!(line.get_visible_graphemes(0, 6), "abcdef");
    assert_eq!(line.get_visible_graphemes(3, 3), "");
}

#[test]
fn visible_window_ellipsis_on_wide_boundary() {
    // Three double-width characters occupy columns [0,2), [2,4), [4,6).
    // A window over columns [1,5) cuts both outer characters in half,
    // so each is replaced by an ellipsis.
    let line = Line::from("\u{597d}\u{597d}\u{597d}");
    assert_eq!(line.get_visible_graphemes(1, 5), "\u{22ef}\u{597d}\u{22ef}");
}

#[test]
fn search_next_finds_matches() {
    let line = Line::from("abcabc");
    assert_eq!(line.search_next("bc", 0), Some(1));
    assert_eq!(line.search_next("bc", 2), Some(4));
    assert_eq!(line.search_next("bc", 5), None);
    assert_eq!(line.search_next("zz", 0), None);
}

#[test]
fn search_next_from_end_finds_nothing() {
    let line = Line::from("abc");
    assert_eq!(line.search_next("abc", 3), None);
}

#[test]
fn search_previous_finds_matches() {
    let line = Line::from("abcabc");
    assert_eq!(line.search_previous("bc", 6), Some(4));
    assert_eq!(line.search_previous("bc", 4), Some(1));
    assert_eq!(line.search_previous("bc", 0), None);
}

#[test]
fn search_previous_sees_non_overlapping_matches() {
    // Matches of "aa" in "aaa" do not overlap: only the one at zero
    // exists, so the backward search from the end lands there.
    let line = Line::from("aaa");
    assert_eq!(line.search_previous("aa", 3), Some(0));
}

#[test]
fn annotated_substr_marks_matches_and_selection() {
    let line = Line::from("foo foo");
    let annotated = line.get_annotated_visible_substr(0, 10, Some("foo"), Some(4));
    let parts: Vec<(String, Option<AnnotationType>)> =
        annotated.parts().into_iter().map(|p| (p.text, p.annotation_type)).collect();
    assert_eq!(
        parts,
        vec![
            ("foo".to_string(), Some(AnnotationType::Match)),
            (" ".to_string(), None),
            ("foo".to_string(), Some(AnnotationType::SelectedMatch)),
        ]
    );
}

#[test]
fn annotated_substr_empty_window_is_empty() {
    let line = Line::from("foo");
    let annotated = line.get_annotated_visible_substr(5, 5, Some("foo"), None);
    assert_eq!(annotated.to_string(), "");
}
