use hecto::line::Line;

#[test]
fn from_ascii_counts_graphemes() {
    let l = Line::from("ab");
    assert_eq!(l.grapheme_count(), 2);
    assert_eq!(l.content(), "ab");
}

#[test]
fn from_empty_is_empty() {
    let l = Line::from("");
    assert_eq!(l.grapheme_count(), 0);
    assert_eq!(l.content(), "");
    assert_eq!(l.width_until(0), 0);
}

#[test]
fn combining_mark_merges_into_cluster() {
    // 'a' + combining candrabindu and 'e' + combining acute: two clusters.
    let l = Line::from("a\u{310}e\u{301}");
    assert_eq!(l.grapheme_count(), 2);
    assert_eq!(l.content(), "a\u{310}e\u{301}");
}

#[test]
fn wide_character_spans_two_columns() {
    let l = Line::from("\u{5b57}ab");
    assert_eq!(l.grapheme_count(), 3);
    assert_eq!(l.width_until(0), 0);
    assert_eq!(l.width_until(1), 2);
    assert_eq!(l.width_until(2), 3);
    assert_eq!(l.width_until(3), 4);
    // an index past the count clamps to the full width
    assert_eq!(l.width_until(100), 4);
}

#[test]
fn lone_combining_mark_gets_one_column() {
    // the width table reports zero columns; the line raises that to one
    let l = Line::from("\u{310}");
    assert_eq!(l.grapheme_count(), 1);
    assert_eq!(l.width_until(1), 1);
}

#[test]
fn width_until_equals_total_width() {
    let l = Line::from("abc");
    assert_eq!(l.width_until(l.grapheme_count()), 3);
}

#[test]
fn insert_char_at_position() {
    let mut l = Line::from("ac");
    l.insert_char('b', 1);
    assert_eq!(l.content(), "abc");
    assert_eq!(l.grapheme_count(), 3);
}

#[test]
fn insert_char_append_at_count() {
    let mut l = Line::from("ab");
    l.insert_char('c', 2);
    assert_eq!(l.content(), "abc");
}

#[test]
fn insert_char_past_count_is_noop() {
    let mut l = Line::from("ab");
    l.insert_char('x', 3);
    assert_eq!(l.content(), "ab");
    assert_eq!(l.grapheme_count(), 2);
}

#[test]
fn delete_at_position() {
    let mut l = Line::from("abc");
    l.delete(1);
    assert_eq!(l.content(), "ac");
}

#[test]
fn delete_out_of_range_is_noop() {
    let mut l = Line::from("abc");
    l.delete(3);
    assert_eq!(l.content(), "abc");
    l.delete(1000);
    assert_eq!(l.content(), "abc");
}

#[test]
fn insert_then_delete_restores_line() {
    let mut l = Line::from("abcd");
    l.insert_char('x', 2);
    assert_eq!(l.content(), "abxcd");
    l.delete(2);
    assert_eq!(l.content(), "abcd");
}

#[test]
fn split_at_middle() {
    let mut l = Line::from("abcd");
    let tail = l.split(1);
    assert_eq!(l.content(), "a");
    assert_eq!(tail.content(), "bcd");
}

#[test]
fn split_at_count_yields_empty_tail() {
    let mut l = Line::from("ab");
    let tail = l.split(2);
    assert_eq!(l.content(), "ab");
    assert_eq!(tail.grapheme_count(), 0);
}

#[test]
fn split_past_count_is_noop_with_empty_tail() {
    let mut l = Line::from("ab");
    let tail = l.split(5);
    assert_eq!(l.content(), "ab");
    assert_eq!(tail.grapheme_count(), 0);
}

#[test]
fn split_append_round_trips() {
    for i in 0..=4 {
        let mut l = Line::from("wxyz");
        let tail = l.split(i);
        l.append(tail);
        assert_eq!(l.content(), "wxyz");
        assert_eq!(l.grapheme_count(), 4);
    }
}

#[test]
fn visible_slice_full_range() {
    let l = Line::from("abc");
    assert_eq!(l.get_visible_graphemes(0, 3), "abc");
}

#[test]
fn visible_slice_zero_width_range_is_empty() {
    let l = Line::from("abc");
    assert_eq!(l.get_visible_graphemes(1, 1), "");
}

#[test]
fn visible_slice_beyond_line_is_empty() {
    let l = Line::from("abc");
    assert_eq!(l.get_visible_graphemes(10, 20), "");
}

#[test]
fn visible_slice_drops_partially_overlapping_wide_cluster() {
    // columns: wide cluster [0,2), 'a' [2,3), 'b' [3,4)
    let l = Line::from("\u{5b57}ab");
    assert_eq!(l.get_visible_graphemes(0, 2), "\u{5b57}");
    // the wide cluster only partially overlaps [1,3): dropped whole
    assert_eq!(l.get_visible_graphemes(1, 3), "a");
    assert_eq!(l.get_visible_graphemes(2, 4), "ab");
    assert_eq!(l.get_visible_graphemes(0, 1), "");
}
