use hecto::command::Direction;
use hecto::command::EditorCommand;
use hecto::editor::Editor;
use hecto::messagebar::MessageBar;
use hecto::screen::Size;
use hecto::uicomponent::UIComponent;

fn size(height: usize, width: usize) -> Size {
    Size { height, width }
}

#[test]
fn new_editor_reserves_bar_rows_and_posts_help() {
    let e = Editor::new(size(10, 40), 0);
    assert!(!e.should_quit);
    assert_eq!(e.viewport.size.height, 8);
    assert_eq!(e.viewport.size.width, 40);
    assert_eq!(e.message_bar.current_message.text, "HELP: Ctrl-S = save | Ctrl-Q = quit");
}

#[test]
fn quit_command_raises_the_flag() {
    let mut e = Editor::new(size(10, 40), 0);
    e.execute_command(EditorCommand::Quit);
    assert!(e.should_quit);
}

#[test]
fn resize_command_reshapes_components() {
    let mut e = Editor::new(size(10, 40), 0);
    e.execute_command(EditorCommand::Resize(size(6, 20)));
    assert_eq!(e.terminal_size.height, 6);
    assert_eq!(e.terminal_size.width, 20);
    assert_eq!(e.viewport.size.height, 4);
    assert_eq!(e.viewport.size.width, 20);
    assert_eq!(e.status_bar.size.width, 20);
}

#[test]
fn editing_commands_reach_the_buffer() {
    let mut e = Editor::new(size(10, 40), 0);
    e.viewport.load("ab", "t.txt");
    e.execute_command(EditorCommand::Move(Direction::End));
    e.execute_command(EditorCommand::Insert('c'));
    assert_eq!(e.viewport.buf.lines[0].content(), "abc");
    assert!(e.viewport.buf.dirty);
}

#[test]
fn refresh_status_reports_title_once() {
    let mut e = Editor::new(size(10, 40), 0);
    e.viewport.load("ab", "dir/x.txt");
    let first = e.refresh_status();
    assert_eq!(first.as_deref(), Some("x.txt - hecto"));
    assert_eq!(e.title, "x.txt - hecto");
    assert_eq!(e.status_bar.current_status.file_name, "x.txt");
    assert_eq!(e.status_bar.current_status.total_lines, 1);
    let second = e.refresh_status();
    assert!(second.is_none());
}

#[test]
fn message_expires_and_clears_once() {
    let mut bar = MessageBar::default();
    bar.update_message(String::from("hi"), 1000);
    assert!(!bar.current_message.is_expired(6000));
    assert!(bar.current_message.is_expired(6001));
    // first render shows the message and clears the flag
    assert_eq!(bar.render().as_deref(), Some("hi"));
    assert!(bar.render().is_none());
    // once expired, one more draw of an empty row is due, and only one
    bar.tick(7000);
    assert!(bar.needs_redraw());
    assert_eq!(bar.render().as_deref(), Some(""));
    assert!(bar.render().is_none());
}

#[test]
fn save_flow_serializes_and_confirms() {
    let mut e = Editor::new(size(10, 40), 0);
    e.viewport.load("ab\ncd", "t.txt");
    e.execute_command(EditorCommand::Move(Direction::End));
    e.execute_command(EditorCommand::Delete);
    assert!(e.viewport.buf.dirty);
    // the enclosing loop persists this text, then confirms
    assert_eq!(e.viewport.buf.serialize(), "abcd");
    assert_eq!(e.viewport.buf.file_info.path.as_deref(), Some("t.txt"));
    e.execute_command(EditorCommand::Save);
    assert!(e.viewport.buf.dirty);
    e.viewport.confirm_saved();
    assert!(!e.viewport.buf.dirty);
}
