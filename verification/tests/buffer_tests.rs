use hecto::buffer::Buffer;
use hecto::viewport::Location;

fn loc(line_index: usize, grapheme_index: usize) -> Location {
    Location { grapheme_index, line_index }
}

#[test]
fn load_splits_on_line_feeds() {
    let b = Buffer::load("ab\ncd", "t.txt");
    assert_eq!(b.height(), 2);
    assert_eq!(b.lines[0].content(), "ab");
    assert_eq!(b.lines[1].content(), "cd");
    assert!(!b.dirty);
}

#[test]
fn load_trailing_terminator_yields_no_phantom_line() {
    let b = Buffer::load("ab\n", "t.txt");
    assert_eq!(b.height(), 1);
    assert_eq!(b.lines[0].content(), "ab");
}

#[test]
fn load_crlf_sheds_carriage_return() {
    let b = Buffer::load("ab\r\ncd", "t.txt");
    assert_eq!(b.height(), 2);
    assert_eq!(b.lines[0].content(), "ab");
    assert_eq!(b.lines[1].content(), "cd");
}

#[test]
fn load_lone_line_feed_gives_one_empty_line() {
    let b = Buffer::load("\n", "t.txt");
    assert_eq!(b.height(), 1);
    assert_eq!(b.lines[0].content(), "");
}

#[test]
fn load_empty_text_gives_empty_buffer() {
    let b = Buffer::load("", "t.txt");
    assert!(b.is_empty());
    assert_eq!(b.height(), 0);
}

#[test]
fn serialize_joins_with_line_feed() {
    let b = Buffer::load("ab\ncd", "t.txt");
    assert_eq!(b.serialize(), "ab\ncd");
}

#[test]
fn serialize_empty_buffer_is_empty() {
    let b = Buffer::default();
    assert_eq!(b.serialize(), "");
}

#[test]
fn insert_char_into_line_marks_dirty() {
    let mut b = Buffer::load("ab", "t.txt");
    b.insert_char('X', loc(0, 1));
    assert_eq!(b.lines[0].content(), "aXb");
    assert!(b.dirty);
}

#[test]
fn insert_char_one_past_last_line_appends_line() {
    let mut b = Buffer::load("ab", "t.txt");
    b.insert_char('c', loc(1, 0));
    assert_eq!(b.height(), 2);
    assert_eq!(b.lines[1].content(), "c");
    assert!(b.dirty);
}

#[test]
fn insert_char_far_out_of_range_is_noop() {
    let mut b = Buffer::load("ab", "t.txt");
    b.insert_char('x', loc(5, 0));
    assert_eq!(b.height(), 1);
    assert_eq!(b.lines[0].content(), "ab");
    assert!(!b.dirty);
}

#[test]
fn delete_grapheme_in_line() {
    let mut b = Buffer::load("abc", "t.txt");
    b.delete(loc(0, 1));
    assert_eq!(b.lines[0].content(), "ac");
    assert!(b.dirty);
}

#[test]
fn delete_at_end_of_line_joins_next() {
    let mut b = Buffer::load("ab\ncd", "t.txt");
    b.delete(loc(0, 2));
    assert_eq!(b.height(), 1);
    assert_eq!(b.lines[0].content(), "abcd");
    assert!(b.dirty);
}

#[test]
fn delete_at_document_end_is_noop_on_lines() {
    let mut b = Buffer::load("ab", "t.txt");
    b.delete(loc(0, 2));
    assert_eq!(b.height(), 1);
    assert_eq!(b.lines[0].content(), "ab");
    // nothing was removed and nothing joined, so nothing is unsaved
    assert!(!b.dirty);
}

#[test]
fn delete_line_index_out_of_range_is_noop() {
    let mut b = Buffer::load("ab", "t.txt");
    b.delete(loc(7, 0));
    assert_eq!(b.height(), 1);
    assert_eq!(b.lines[0].content(), "ab");
    assert!(!b.dirty);
}

#[test]
fn insert_newline_splits_line() {
    let mut b = Buffer::load("abcd", "t.txt");
    b.insert_newline(loc(0, 1));
    assert_eq!(b.height(), 2);
    assert_eq!(b.lines[0].content(), "a");
    assert_eq!(b.lines[1].content(), "bcd");
    assert!(b.dirty);
}

#[test]
fn insert_newline_one_past_last_line_appends_empty_line() {
    let mut b = Buffer::load("ab", "t.txt");
    b.insert_newline(loc(1, 0));
    assert_eq!(b.height(), 2);
    assert_eq!(b.lines[1].content(), "");
}

#[test]
fn insert_newline_then_delete_joins_back() {
    let mut b = Buffer::load("abcd", "t.txt");
    b.insert_newline(loc(0, 2));
    assert_eq!(b.height(), 2);
    b.delete(loc(0, 2));
    assert_eq!(b.height(), 1);
    assert_eq!(b.lines[0].content(), "abcd");
}

#[test]
fn mark_saved_clears_dirty_only() {
    let mut b = Buffer::load("ab", "t.txt");
    b.insert_char('c', loc(0, 2));
    assert!(b.dirty);
    b.mark_saved();
    assert!(!b.dirty);
    assert_eq!(b.lines[0].content(), "abc");
}

#[test]
fn huge_locations_never_corrupt_the_buffer() {
    let mut b = Buffer::load("ab\ncd", "t.txt");
    b.insert_char('x', loc(usize::MAX, usize::MAX));
    b.insert_newline(loc(usize::MAX, 3));
    b.delete(loc(usize::MAX, usize::MAX));
    assert_eq!(b.height(), 2);
    assert_eq!(b.lines[0].content(), "ab");
    assert_eq!(b.lines[1].content(), "cd");
    // a grapheme position past the end inserts nothing and dirties nothing
    b.insert_char('x', loc(0, usize::MAX));
    assert_eq!(b.lines[0].content(), "ab");
    assert!(!b.dirty);
    // the newline position clamps inside a valid line: a real change
    b.insert_newline(loc(1, usize::MAX));
    assert_eq!(b.height(), 3);
    assert_eq!(b.lines[1].content(), "cd");
    assert_eq!(b.lines[2].content(), "");
    assert!(b.dirty);
}

#[test]
fn save_then_load_restores_lines() {
    let b = Buffer::load("ab\n\ncd", "t.txt");
    let text = b.serialize();
    let again = Buffer::load(text.as_str(), "t.txt");
    assert_eq!(again.height(), b.height());
    for i in 0..b.height() {
        assert_eq!(again.lines[i].content(), b.lines[i].content());
    }
}
