use hecto::fileinfo::FileInfo;
use hecto::location::Location;
use hecto::screen::Position;
use hecto::screen::Size;
use hecto::status::format_usize;
use hecto::status::DocumentStatus;
use hecto::statusbar::Statusbar;
use hecto::uicomponent::UIComponent;

fn status(total: usize, current: usize, modified: bool, name: &str) -> DocumentStatus {
    DocumentStatus {
        total_lines: total,
        current_line_index: current,
        is_modified: modified,
        file_name: String::from(name),
    }
}

#[test]
fn format_usize_digits() {
    assert_eq!(format_usize(0), "0");
    assert_eq!(format_usize(7), "7");
    assert_eq!(format_usize(10), "10");
    assert_eq!(format_usize(12345), "12345");
}

#[test]
fn document_status_captions() {
    let s = status(3, 0, true, "x.txt");
    assert_eq!(s.line_count_to_string(), "3 lines");
    assert_eq!(s.modified_indicator_to_string(), "(modified)");
    assert_eq!(s.position_indicator_to_string(), "1/3");
    let clean = status(3, 2, false, "x.txt");
    assert_eq!(clean.modified_indicator_to_string(), "");
    assert_eq!(clean.position_indicator_to_string(), "3/3");
}

#[test]
fn status_text_right_aligns_position() {
    let mut bar = Statusbar::default();
    bar.set_size(Size { height: 1, width: 20 });
    bar.update_status(status(2, 0, false, "x.txt"));
    // "x.txt - 2 lines " is 16 columns; "1/2" right-aligned in the last 4
    assert_eq!(bar.status_text(), "x.txt - 2 lines  1/2");
}

#[test]
fn status_text_overfull_row_collapses() {
    let mut bar = Statusbar::default();
    bar.set_size(Size { height: 1, width: 5 });
    bar.update_status(status(2, 0, false, "x.txt"));
    assert_eq!(bar.status_text(), "");
}

#[test]
fn update_status_marks_redraw_only_on_change() {
    let mut bar = Statusbar::default();
    bar.set_size(Size { height: 1, width: 30 });
    bar.update_status(status(1, 0, false, "a"));
    assert!(bar.needs_redraw());
    let drawn = bar.render();
    assert!(drawn.is_some());
    assert!(!bar.needs_redraw());
    bar.update_status(status(1, 0, false, "a"));
    assert!(!bar.needs_redraw());
    assert!(bar.render().is_none());
    bar.update_status(status(1, 0, true, "a"));
    assert!(bar.needs_redraw());
}

#[test]
fn component_resize_marks_redraw_due() {
    let mut bar = Statusbar::default();
    assert!(!bar.needs_redraw());
    bar.resize(Size { height: 1, width: 12 });
    assert!(bar.needs_redraw());
    assert_eq!(bar.size.width, 12);
}

#[test]
fn display_name_is_last_path_component() {
    let f = FileInfo::from("dir/sub/file.txt");
    assert_eq!(f.display_name(), "file.txt");
    let plain = FileInfo::from("file.txt");
    assert_eq!(plain.display_name(), "file.txt");
}

#[test]
fn display_name_placeholder_cases() {
    let untitled = FileInfo::default();
    assert_eq!(untitled.display_name(), "[No Name]");
    let dir = FileInfo::from("dir/");
    assert_eq!(dir.display_name(), "[No Name]");
}

#[test]
fn position_saturating_sub_floors_at_zero() {
    let a = Position { col: 5, row: 2 };
    let b = Position { col: 3, row: 7 };
    let d = a.saturating_sub(&b);
    assert_eq!(d.col, 2);
    assert_eq!(d.row, 0);
}

#[test]
fn location_subtract_floors_at_zero() {
    let a = Location { x: 4, y: 1 };
    let b = Location { x: 1, y: 4 };
    let d = a.subtract(&b);
    assert_eq!(d.x, 3);
    assert_eq!(d.y, 0);
}
