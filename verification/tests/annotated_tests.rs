use rsedit::annotatedstring::{AnnotatedString, AnnotationType};

fn parts_of(s: &AnnotatedString) -> Vec<(String, Option<AnnotationType>)> {
    s.parts().into_iter().map(|p| (p.text, p.annotation_type)).collect()
}

#[test]
fn plain_string_is_one_part() {
    let s = AnnotatedString::from("hello");
    assert_eq!(s.to_string(), "hello");
    let parts = parts_of(&s);
    assert_eq!(parts.len(), 1);
    assert_eq!(parts[0], ("hello".to_string(), None));
}

#[test]
fn empty_string_has_no_parts() {
    let s = AnnotatedString::default();
    assert_eq!(s.to_string(), "");
    assert!(s.parts().is_empty());
}

#[test]
fn annotation_splits_parts() {
    let mut s = AnnotatedString::from("hello world");
    s.add_annotation(AnnotationType::Match, 6, 11);
    let parts = parts_of(&s);
    assert_eq!(
        parts,
        vec![
            ("hello ".to_string(), None),
            ("world".to_string(), Some(AnnotationType::Match)),
        ]
    );
}

#[test]
fn last_added_annotation_wins() {
    // Both annotations cover the first position; the most recently
    // added one styles the segment, which runs to that annotation's
    // end.
    let mut s = AnnotatedString::from("abcdef");
    s.add_annotation(AnnotationType::Match, 0, 6);
    s.add_annotation(AnnotationType::SelectedMatch, 0, 3);
    let parts = parts_of(&s);
    assert_eq!(
        parts,
        vec![
            ("abc".to_string(), Some(AnnotationType::SelectedMatch)),
            ("def".to_string(), Some(AnnotationType::Match)),
        ]
    );
}

#[test]
fn replace_shifts_later_annotation_left() {
    // Replacing [2,5) of "hello world" with "X": the annotation over
    // the replaced range collapses onto the replacement, and the one
    // over "world" at [6,11) shifts left by two.
    let mut s = AnnotatedString::from("hello world");
    s.add_annotation(AnnotationType::Match, 2, 5);
    s.add_annotation(AnnotationType::Match, 6, 11);
    s.replace(2, 5, "X");
    assert_eq!(s.to_string(), "heX world");
    let parts = parts_of(&s);
    assert_eq!(
        parts,
        vec![
            ("he".to_string(), None),
            ("X".to_string(), Some(AnnotationType::Match)),
            (" ".to_string(), None),
            ("world".to_string(), Some(AnnotationType::Match)),
        ]
    );
}

#[test]
fn replace_with_empty_drops_emptied_annotation() {
    let mut s = AnnotatedString::from("hello world");
    s.add_annotation(AnnotationType::Match, 2, 5);
    s.replace(2, 5, "");
    assert_eq!(s.to_string(), "he world");
    let parts = parts_of(&s);
    assert_eq!(parts, vec![("he world".to_string(), None)]);
}

#[test]
fn replace_growing_shifts_right() {
    let mut s = AnnotatedString::from("ab");
    s.add_annotation(AnnotationType::Match, 1, 2);
    s.replace(0, 1, "xyz");
    assert_eq!(s.to_string(), "xyzb");
    let parts = parts_of(&s);
    assert_eq!(
        parts,
        vec![
            ("xyz".to_string(), None),
            ("b".to_string(), Some(AnnotationType::Match)),
        ]
    );
}

#[test]
fn replace_clamps_end_to_length() {
    let mut s = AnnotatedString::from("abc");
    s.replace(1, 99, "Z");
    assert_eq!(s.to_string(), "aZ");
}

#[test]
fn replace_with_start_past_end_is_noop() {
    let mut s = AnnotatedString::from("abc");
    s.replace(5, 2, "Z");
    assert_eq!(s.to_string(), "abc");
}

#[test]
fn annotation_clipped_to_string_end_in_parts() {
    let mut s = AnnotatedString::from("abc");
    s.add_annotation(AnnotationType::Match, 1, 99);
    let parts = parts_of(&s);
    assert_eq!(
        parts,
        vec![
            ("a".to_string(), None),
            ("bc".to_string(), Some(AnnotationType::Match)),
        ]
    );
}
