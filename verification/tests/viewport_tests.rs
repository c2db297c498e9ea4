use hecto::command::Direction;
use hecto::command::EditorCommand;
use hecto::screen::Size;
use hecto::viewport::View;

fn size(height: usize, width: usize) -> Size {
    Size { height, width }
}

fn viewport_with(text: &str, height: usize, width: usize) -> View {
    let mut v = View::new(size(height, width), 0);
    v.load(text, "t.txt");
    v
}

#[test]
fn load_text_builds_two_lines() {
    let v = viewport_with("ab\ncd", 5, 10);
    assert_eq!(v.buf.height(), 2);
    assert_eq!(v.buf.lines[0].content(), "ab");
    assert_eq!(v.buf.lines[1].content(), "cd");
}

#[test]
fn insert_at_end_of_line_advances_cursor() {
    // cursor to {0,2} via End, then type: line becomes "abX", cursor {0,3}
    let mut v = viewport_with("ab\ncd", 5, 10);
    v.handle_command(EditorCommand::Move(Direction::End));
    assert_eq!(v.text_location.line_index, 0);
    assert_eq!(v.text_location.grapheme_index, 2);
    v.handle_command(EditorCommand::Insert('X'));
    assert_eq!(v.buf.lines[0].content(), "abX");
    assert_eq!(v.text_location.line_index, 0);
    assert_eq!(v.text_location.grapheme_index, 3);
}

#[test]
fn backspace_at_document_start_is_noop() {
    let mut v = viewport_with("ab\ncd", 5, 10);
    v.handle_command(EditorCommand::Backspace);
    assert_eq!(v.buf.height(), 2);
    assert_eq!(v.buf.lines[0].content(), "ab");
    assert_eq!(v.buf.lines[1].content(), "cd");
    assert_eq!(v.text_location.line_index, 0);
    assert_eq!(v.text_location.grapheme_index, 0);
    assert!(!v.buf.dirty);
}

#[test]
fn delete_at_end_of_line_joins_lines() {
    let mut v = viewport_with("ab\ncd", 5, 10);
    v.handle_command(EditorCommand::Move(Direction::End));
    v.handle_command(EditorCommand::Delete);
    assert_eq!(v.buf.height(), 1);
    assert_eq!(v.buf.lines[0].content(), "abcd");
}

#[test]
fn moving_down_past_viewport_scrolls() {
    // rows = 3, ten lines, five Down moves: offset 5 - 3 + 1 = 3, caret row 2
    let mut v = viewport_with("l0\nl1\nl2\nl3\nl4\nl5\nl6\nl7\nl8\nl9", 3, 10);
    for _ in 0..5 {
        v.handle_command(EditorCommand::Move(Direction::Down));
    }
    assert_eq!(v.text_location.line_index, 5);
    assert_eq!(v.scroll_offset.row, 3);
    assert_eq!(v.caret_position().row, 2);
    assert_eq!(v.caret_position().col, 0);
}

#[test]
fn backspace_mid_line_removes_previous_grapheme() {
    let mut v = viewport_with("abc", 5, 10);
    v.handle_command(EditorCommand::Move(Direction::Right));
    v.handle_command(EditorCommand::Move(Direction::Right));
    v.handle_command(EditorCommand::Backspace);
    assert_eq!(v.buf.lines[0].content(), "ac");
    assert_eq!(v.text_location.grapheme_index, 1);
}

#[test]
fn backspace_at_line_start_joins_backward() {
    let mut v = viewport_with("ab\ncd", 5, 10);
    v.handle_command(EditorCommand::Move(Direction::Down));
    assert_eq!(v.text_location.line_index, 1);
    v.handle_command(EditorCommand::Backspace);
    assert_eq!(v.buf.height(), 1);
    assert_eq!(v.buf.lines[0].content(), "abcd");
    assert_eq!(v.text_location.line_index, 0);
    assert_eq!(v.text_location.grapheme_index, 2);
}

#[test]
fn enter_splits_line_and_cursor_lands_on_new_line() {
    let mut v = viewport_with("abcd", 5, 10);
    v.handle_command(EditorCommand::Move(Direction::Right));
    v.handle_command(EditorCommand::Enter);
    assert_eq!(v.buf.height(), 2);
    assert_eq!(v.buf.lines[0].content(), "a");
    assert_eq!(v.buf.lines[1].content(), "bcd");
    assert_eq!(v.text_location.line_index, 1);
    assert_eq!(v.text_location.grapheme_index, 0);
}

#[test]
fn enter_then_backspace_restores_line() {
    let mut v = viewport_with("abcd", 5, 10);
    v.handle_command(EditorCommand::Move(Direction::Right));
    v.handle_command(EditorCommand::Move(Direction::Right));
    v.handle_command(EditorCommand::Enter);
    v.handle_command(EditorCommand::Backspace);
    assert_eq!(v.buf.height(), 1);
    assert_eq!(v.buf.lines[0].content(), "abcd");
    assert_eq!(v.text_location.line_index, 0);
    assert_eq!(v.text_location.grapheme_index, 2);
}

#[test]
fn left_from_line_start_wraps_to_previous_end() {
    let mut v = viewport_with("ab\ncd", 5, 10);
    v.handle_command(EditorCommand::Move(Direction::Down));
    v.handle_command(EditorCommand::Move(Direction::Left));
    assert_eq!(v.text_location.line_index, 0);
    assert_eq!(v.text_location.grapheme_index, 2);
}

#[test]
fn right_from_line_end_wraps_to_next_start() {
    let mut v = viewport_with("ab\ncd", 5, 10);
    v.handle_command(EditorCommand::Move(Direction::End));
    v.handle_command(EditorCommand::Move(Direction::Right));
    assert_eq!(v.text_location.line_index, 1);
    assert_eq!(v.text_location.grapheme_index, 0);
}

#[test]
fn up_down_clamp_grapheme_to_shorter_line() {
    let mut v = viewport_with("abcd\nxy", 5, 10);
    v.handle_command(EditorCommand::Move(Direction::End));
    assert_eq!(v.text_location.grapheme_index, 4);
    v.handle_command(EditorCommand::Move(Direction::Down));
    assert_eq!(v.text_location.line_index, 1);
    assert_eq!(v.text_location.grapheme_index, 2);
}

#[test]
fn page_down_moves_by_view_height_minus_one() {
    let mut v = viewport_with("a\nb\nc\nd\ne\nf\ng\nh", 4, 10);
    v.handle_command(EditorCommand::Move(Direction::PageDown));
    assert_eq!(v.text_location.line_index, 3);
    v.handle_command(EditorCommand::Move(Direction::PageUp));
    assert_eq!(v.text_location.line_index, 0);
}

#[test]
fn down_stops_one_past_last_line() {
    let mut v = viewport_with("a\nb", 5, 10);
    for _ in 0..5 {
        v.handle_command(EditorCommand::Move(Direction::Down));
    }
    assert_eq!(v.text_location.line_index, 2);
    assert_eq!(v.text_location.grapheme_index, 0);
}

#[test]
fn horizontal_scroll_follows_cursor() {
    let mut v = viewport_with("abcdef", 3, 4);
    v.handle_command(EditorCommand::Move(Direction::End));
    // column 6, width 4: offset = 6 - 4 + 1 = 3
    assert_eq!(v.scroll_offset.col, 3);
    assert_eq!(v.caret_position().col, 3);
    v.handle_command(EditorCommand::Move(Direction::Home));
    assert_eq!(v.scroll_offset.col, 0);
    assert_eq!(v.caret_position().col, 0);
}

#[test]
fn wide_graphemes_scroll_by_columns() {
    // two wide clusters: columns 0..2 and 2..4; width 3
    let mut v = viewport_with("\u{5b57}\u{5b57}", 3, 3);
    v.handle_command(EditorCommand::Move(Direction::End));
    // column 4, width 3: offset = 4 - 3 + 1 = 2
    assert_eq!(v.scroll_offset.col, 2);
}

#[test]
fn render_shows_lines_and_placeholders() {
    let mut v = viewport_with("ab\ncd", 3, 10);
    let rows = v.render();
    assert_eq!(rows.len(), 3);
    assert_eq!(rows[0], "ab");
    assert_eq!(rows[1], "cd");
    assert_eq!(rows[2], "~");
    // the flag cleared: a second render is skipped
    let again = v.render();
    assert_eq!(again.len(), 0);
}

#[test]
fn render_slices_horizontally() {
    let mut v = viewport_with("abcdef", 2, 3);
    v.handle_command(EditorCommand::Move(Direction::End));
    let rows = v.render();
    assert_eq!(rows.len(), 2);
    // the caret sits at column 6, so the offset is 6 - 3 + 1 = 4 and the
    // visible columns are [4, 7)
    assert_eq!(rows[0], "ef");
    assert_eq!(rows[1], "~");
}

#[test]
fn render_empty_buffer_centers_welcome() {
    let mut v = View::new(size(3, 40), 0);
    let rows = v.render();
    assert_eq!(rows.len(), 3);
    assert_eq!(rows[0], "~");
    assert_eq!(rows[1], format!("~{}hecto editor -- version 0.1.0{}", " ".repeat(5), " ".repeat(5)));
    assert_eq!(rows[2], "~");
}

#[test]
fn render_narrow_welcome_falls_back_to_tilde() {
    let mut v = View::new(size(3, 10), 0);
    let rows = v.render();
    assert_eq!(rows[1], "~");
}

#[test]
fn render_skipped_when_nothing_due_keeps_flag() {
    let mut v = View::new(size(0, 10), 0);
    let rows = v.render();
    assert_eq!(rows.len(), 0);
    assert!(v.need_redraw);
}

#[test]
fn quit_and_save_leave_the_viewport_untouched() {
    let mut v = viewport_with("ab", 5, 10);
    let dirty_before = v.buf.dirty;
    v.handle_command(EditorCommand::Quit);
    v.handle_command(EditorCommand::Save);
    assert_eq!(v.buf.height(), 1);
    assert_eq!(v.buf.lines[0].content(), "ab");
    assert_eq!(v.buf.dirty, dirty_before);
}

#[test]
fn serialize_and_confirm_saved() {
    let mut v = viewport_with("ab", 5, 10);
    v.handle_command(EditorCommand::Move(Direction::End));
    v.handle_command(EditorCommand::Insert('c'));
    assert!(v.buf.dirty);
    assert_eq!(v.buf.serialize(), "abc");
    v.confirm_saved();
    assert!(!v.buf.dirty);
}

#[test]
fn get_status_reflects_document() {
    let mut v = viewport_with("ab\ncd", 5, 10);
    v.handle_command(EditorCommand::Move(Direction::Down));
    let s = v.get_status();
    assert_eq!(s.total_lines, 2);
    assert_eq!(s.current_line_index, 1);
    assert!(!s.is_modified);
    assert_eq!(s.file_name, "t.txt");
}

#[test]
fn resize_keeps_cursor_visible() {
    let mut v = viewport_with("a\nb\nc\nd\ne\nf", 6, 10);
    for _ in 0..5 {
        v.handle_command(EditorCommand::Move(Direction::Down));
    }
    assert_eq!(v.text_location.line_index, 5);
    v.handle_command(EditorCommand::Resize(size(2, 10)));
    // rows = 2: offset = 5 - 2 + 1 = 4, caret at local row 1
    assert_eq!(v.scroll_offset.row, 4);
    assert_eq!(v.caret_position().row, 1);
}

#[test]
fn moves_clamp_a_cursor_stranded_by_a_shorter_load() {
    let mut v = viewport_with("a\nb\nc\nd\ne", 10, 10);
    for _ in 0..4 {
        v.handle_command(EditorCommand::Move(Direction::Down));
    }
    assert_eq!(v.text_location.line_index, 4);
    // loading a shorter document keeps the old cursor snapshot
    v.load("x\ny", "u.txt");
    assert_eq!(v.text_location.line_index, 4);
    // the next move re-validates: the line index clamps to the height
    v.handle_command(EditorCommand::Move(Direction::Home));
    assert_eq!(v.text_location.line_index, 2);
    assert_eq!(v.text_location.grapheme_index, 0);
}

#[test]
fn noop_edits_leave_the_document_clean() {
    let mut v = viewport_with("ab", 5, 10);
    // forward delete at the very end of the document removes nothing
    v.handle_command(EditorCommand::Move(Direction::End));
    v.handle_command(EditorCommand::Delete);
    assert_eq!(v.buf.lines[0].content(), "ab");
    assert!(!v.buf.dirty);
}

#[test]
fn margin_is_reserved_from_the_terminal_height() {
    let v = View::new(size(10, 20), 2);
    assert_eq!(v.size.height, 8);
    assert_eq!(v.size.width, 20);
}
