//! The cursor/viewport engine: a logical cursor location, a scroll offset,
//! and a visible size over one document buffer. Every transition re-runs a
//! scroll-into-view pass, so the cursor's mapped screen position stays
//! inside the visible rectangle whenever that rectangle is non-empty.

use vstd::prelude::*;
use vstd::view::View as _;

use crate::buffer::delete_post;
use crate::buffer::insert_char_post;
use crate::buffer::insert_newline_post;
use crate::buffer::line_from_segment;
use crate::buffer::split_lines;
use crate::buffer::Buffer;
use crate::command::Direction;
use crate::command::EditorCommand;
use crate::fileinfo::display_name_spec;
use crate::line::line_chars;
use crate::line::visible_chars;
use crate::line::width_until_spec;
use crate::line::LINE_MAX;
use crate::screen::Position;
use crate::screen::Size;
use crate::status::DocumentStatus;

verus! {

/// A logical document coordinate: a line and a grapheme position within it.
/// A location is a snapshot, not a live reference; buffer methods clamp any
/// stale coordinate rather than fail.
#[derive(Copy, Clone)]
pub struct Location {
    pub grapheme_index: usize,
    pub line_index: usize,
}

impl Default for Location {
    /// The start of the document.
    fn default() -> (r: Self)
        ensures
            r.grapheme_index == 0 && r.line_index == 0,
    {
        Location { grapheme_index: 0, line_index: 0 }
    }
}

/// The grapheme count of the addressed line, or zero when the index is out
/// of range.
pub open spec fn line_count_at(buf: Buffer, li: int) -> int {
    if 0 <= li < buf.lines@.len() {
        buf.lines@[li]@.len() as int
    } else {
        0
    }
}

/// The screen row a location maps to, before scrolling.
pub open spec fn row_of(loc: Location) -> int {
    loc.line_index as int
}

/// The screen column a location maps to, before scrolling: the width of the
/// graphemes left of it on its line, or zero when the line does not exist.
pub open spec fn col_of(buf: Buffer, loc: Location) -> int {
    if (loc.line_index as int) < buf.lines@.len() {
        width_until_spec(buf.lines@[loc.line_index as int]@, loc.grapheme_index as int)
    } else {
        0
    }
}

/// One axis of the scroll-into-view pass: a target before the offset pulls
/// the offset up to it, one at or past the visible extent pushes the offset
/// so the target becomes the last visible cell, and a visible target leaves
/// the offset alone.
pub open spec fn scroll_adjust(off: int, to: int, extent: int) -> int {
    if to < off {
        to
    } else if to - off >= extent {
        if to - extent + 1 <= usize::MAX {
            to - extent + 1
        } else {
            usize::MAX as int
        }
    } else {
        off
    }
}

/// With a non-empty extent, the adjusted offset always brings the target
/// inside the visible half-open range.
pub proof fn lemma_scroll_contains(off: int, to: int, extent: int)
    requires
        0 <= off,
        0 <= to <= usize::MAX,
        1 <= extent,
    ensures
        scroll_adjust(off, to, extent) <= to < scroll_adjust(off, to, extent) + extent,
{
}

/// The cursor's mapped screen position lies within the visible rectangle.
pub open spec fn cursor_visible(v: View) -> bool {
    &&& v.scroll_offset.row <= row_of(v.text_location) < v.scroll_offset.row + v.size.height
    &&& v.scroll_offset.col <= col_of(v.buf, v.text_location) < v.scroll_offset.col + v.size.width
}

/// A grapheme position clamped to a line's count.
pub open spec fn clamp_to_count(gi: int, cnt: int) -> int {
    if gi <= cnt {
        gi
    } else {
        cnt
    }
}

/// A difference held at zero.
pub open spec fn floor_sub(a: int, b: int) -> int {
    if a >= b {
        a - b
    } else {
        0
    }
}

/// A sum held at the largest index.
pub open spec fn capped_sum(a: int, b: int) -> int {
    if a + b <= usize::MAX {
        a + b
    } else {
        usize::MAX as int
    }
}

/// Where the cursor lands moving up by `step`: the line index drops (held at
/// zero) and the grapheme position is clamped to the new line's count.
pub open spec fn moved_up(buf: Buffer, li: int, gi: int, step: int) -> (int, int) {
    let l2 = floor_sub(li, step);
    (l2, clamp_to_count(gi, line_count_at(buf, l2)))
}

/// Where the cursor lands moving down by `step`: the line index grows, the
/// grapheme position is clamped to that line's count, and the line index is
/// then clamped to the buffer height (one past the last line is allowed).
pub open spec fn moved_down(buf: Buffer, li: int, gi: int, step: int) -> (int, int) {
    let l2 = capped_sum(li, step);
    let g2 = clamp_to_count(gi, line_count_at(buf, l2));
    let l3 = if l2 <= buf.lines@.len() {
        l2
    } else {
        buf.lines@.len() as int
    };
    (l3, g2)
}

/// Where the cursor lands moving left: one grapheme back, or, from the start
/// of a line, the end of the previous line; at the document start it stays.
pub open spec fn moved_left(buf: Buffer, li: int, gi: int) -> (int, int) {
    if gi > 0 {
        (li, gi - 1)
    } else if li > 0 {
        let up = moved_up(buf, li, gi, 1);
        (up.0, line_count_at(buf, up.0))
    } else {
        (li, gi)
    }
}

/// Where the cursor lands moving right: one grapheme forward, or, from the
/// end of a line, the start of the next (clamped to the buffer height).
pub open spec fn moved_right(buf: Buffer, li: int, gi: int) -> (int, int) {
    if gi < line_count_at(buf, li) {
        (li, gi + 1)
    } else {
        moved_down(buf, li, 0, 1)
    }
}

/// Where one movement command sends the cursor before re-validation.
pub open spec fn moved_location_raw(
    buf: Buffer,
    size: Size,
    li: int,
    gi: int,
    dir: Direction,
) -> (int, int) {
    match dir {
        Direction::Up => moved_up(buf, li, gi, 1),
        Direction::Down => moved_down(buf, li, gi, 1),
        Direction::Left => moved_left(buf, li, gi),
        Direction::Right => moved_right(buf, li, gi),
        Direction::PageUp => moved_up(buf, li, gi, floor_sub(size.height as int, 1)),
        Direction::PageDown => moved_down(buf, li, gi, floor_sub(size.height as int, 1)),
        Direction::Home => (li, 0),
        Direction::End => (li, line_count_at(buf, li)),
    }
}

/// Where one movement command sends the cursor: the direction's own move,
/// then the re-validation pass — the grapheme position clamped to its
/// line's count, and the line index clamped to the buffer height. From any
/// cursor (even one stranded out of range by loading a shorter document)
/// every move lands on a valid location.
pub open spec fn moved_location(
    buf: Buffer,
    size: Size,
    li: int,
    gi: int,
    dir: Direction,
) -> (int, int) {
    let raw = moved_location_raw(buf, size, li, gi, dir);
    let g2 = clamp_to_count(raw.1, line_count_at(buf, raw.0));
    let l2 = if raw.0 <= buf.lines@.len() {
        raw.0
    } else {
        buf.lines@.len() as int
    };
    (l2, g2)
}

/// Scroll containment: whenever the cursor is inside the visible rectangle,
/// its on-screen position (document position less the scroll offset) lies
/// within `[0, rows) x [0, columns)`.
pub proof fn lemma_cursor_on_screen(v: View)
    requires
        cursor_visible(v),
    ensures
        0 <= row_of(v.text_location) - v.scroll_offset.row < v.size.height,
        0 <= col_of(v.buf, v.text_location) - v.scroll_offset.col < v.size.width,
{
}

/// How one movement command changes the viewport: the cursor moves as
/// `moved_location` says, each scroll axis adjusts to the new cursor
/// position, a redraw is due exactly when one already was or the offset
/// moved, and the cursor ends inside any non-empty visible rectangle.
pub open spec fn move_post(pre: View, post: View, direction: Direction) -> bool {
    &&& post.buf == pre.buf
    &&& post.size == pre.size
    &&& post.margin_bottom == pre.margin_bottom
    &&& (post.text_location.line_index as int, post.text_location.grapheme_index as int)
        == moved_location(
        pre.buf,
        pre.size,
        pre.text_location.line_index as int,
        pre.text_location.grapheme_index as int,
        direction,
    )
    &&& post.text_location.line_index <= post.buf.lines@.len()
    &&& post.text_location.grapheme_index <= line_count_at(
        post.buf,
        post.text_location.line_index as int,
    )
    &&& post.scroll_offset.row == scroll_adjust(
        pre.scroll_offset.row as int,
        row_of(post.text_location),
        pre.size.height as int,
    )
    &&& post.scroll_offset.col == scroll_adjust(
        pre.scroll_offset.col as int,
        col_of(pre.buf, post.text_location),
        pre.size.width as int,
    )
    &&& post.need_redraw == (pre.need_redraw || post.scroll_offset != pre.scroll_offset)
    &&& post.size.height > 0 && post.size.width > 0 ==> cursor_visible(post)
}

/// How a resize changes the viewport: the new size (with the bottom margin
/// reserved) is adopted, the scroll offsets re-adjust to the unchanged
/// cursor, a redraw is due, and the cursor ends inside any non-empty
/// visible rectangle.
pub open spec fn resize_post(pre: View, post: View, to: Size) -> bool {
    &&& post.buf == pre.buf
    &&& post.margin_bottom == pre.margin_bottom
    &&& post.text_location == pre.text_location
    &&& post.size.width == to.width
    &&& post.size.height == floor_sub(to.height as int, pre.margin_bottom as int)
    &&& post.scroll_offset.row == scroll_adjust(
        pre.scroll_offset.row as int,
        row_of(pre.text_location),
        post.size.height as int,
    )
    &&& post.scroll_offset.col == scroll_adjust(
        pre.scroll_offset.col as int,
        col_of(pre.buf, pre.text_location),
        post.size.width as int,
    )
    &&& post.need_redraw
    &&& post.size.height > 0 && post.size.width > 0 ==> cursor_visible(post)
}

/// How inserting a character changes the viewport: the buffer takes the
/// character at the cursor; if the addressed line grew, the cursor advances
/// one position right (so it sits just after the typed text) and the view
/// scrolls to it; otherwise cursor and scroll stay. A redraw is always due.
pub open spec fn insert_char_view_post(pre: View, post: View, ch: char) -> bool {
    &&& post.size == pre.size
    &&& post.margin_bottom == pre.margin_bottom
    &&& insert_char_post(pre.buf, post.buf, ch, pre.text_location)
    &&& post.need_redraw
    &&& {
        let li = pre.text_location.line_index as int;
        if line_count_at(post.buf, li) > line_count_at(pre.buf, li) {
            &&& (post.text_location.line_index as int, post.text_location.grapheme_index as int)
                == moved_right(
                post.buf,
                pre.text_location.line_index as int,
                pre.text_location.grapheme_index as int,
            )
            &&& post.scroll_offset.row == scroll_adjust(
                pre.scroll_offset.row as int,
                row_of(post.text_location),
                pre.size.height as int,
            )
            &&& post.scroll_offset.col == scroll_adjust(
                pre.scroll_offset.col as int,
                col_of(post.buf, post.text_location),
                pre.size.width as int,
            )
            &&& post.size.height > 0 && post.size.width > 0 ==> cursor_visible(post)
        } else {
            &&& post.text_location == pre.text_location
            &&& post.scroll_offset == pre.scroll_offset
        }
    }
}

/// How inserting a line break changes the viewport: the buffer splits at
/// the cursor, and the cursor then moves one position right, which lands it
/// at the start of the newly created line; the view scrolls to it.
pub open spec fn insert_newline_view_post(pre: View, post: View) -> bool {
    &&& post.size == pre.size
    &&& post.margin_bottom == pre.margin_bottom
    &&& insert_newline_post(pre.buf, post.buf, pre.text_location)
    &&& (post.text_location.line_index as int, post.text_location.grapheme_index as int)
        == moved_right(
        post.buf,
        pre.text_location.line_index as int,
        pre.text_location.grapheme_index as int,
    )
    &&& post.scroll_offset.row == scroll_adjust(
        pre.scroll_offset.row as int,
        row_of(post.text_location),
        pre.size.height as int,
    )
    &&& post.scroll_offset.col == scroll_adjust(
        pre.scroll_offset.col as int,
        col_of(post.buf, post.text_location),
        pre.size.width as int,
    )
    &&& post.need_redraw
    &&& post.size.height > 0 && post.size.width > 0 ==> cursor_visible(post)
}

/// How a forward delete changes the viewport: the buffer deletes at the
/// cursor, which itself does not move, and a redraw is due.
pub open spec fn delete_view_post(pre: View, post: View) -> bool {
    &&& post.size == pre.size
    &&& post.margin_bottom == pre.margin_bottom
    &&& post.text_location == pre.text_location
    &&& post.scroll_offset == pre.scroll_offset
    &&& delete_post(pre.buf, post.buf, pre.text_location)
    &&& post.need_redraw
}

/// How a backspace changes the viewport: at the document start it is a
/// no-op; anywhere else the cursor first moves left (possibly to the end of
/// the previous line) and a forward delete then runs at the new position,
/// which uniformly handles in-line backspace and backward line joins.
pub open spec fn backspace_post(pre: View, post: View) -> bool {
    let li = pre.text_location.line_index as int;
    let gi = pre.text_location.grapheme_index as int;
    if li == 0 && gi == 0 {
        post == pre
    } else {
        let target = moved_location(pre.buf, pre.size, li, gi, Direction::Left);
        let target_loc = Location {
            grapheme_index: target.1 as usize,
            line_index: target.0 as usize,
        };
        &&& post.size == pre.size
        &&& post.margin_bottom == pre.margin_bottom
        &&& (post.text_location.line_index as int, post.text_location.grapheme_index as int)
            == target
        &&& delete_post(pre.buf, post.buf, target_loc)
        &&& post.scroll_offset.row == scroll_adjust(
            pre.scroll_offset.row as int,
            target.0,
            pre.size.height as int,
        )
        &&& post.scroll_offset.col == scroll_adjust(
            pre.scroll_offset.col as int,
            col_of(pre.buf, target_loc),
            pre.size.width as int,
        )
        &&& post.need_redraw
    }
}

/// A run of blanks.
pub open spec fn spaces(n: int) -> Seq<char> {
    Seq::new(
        if n >= 0 {
            n as nat
        } else {
            0
        },
        |i: int| ' ',
    )
}

/// The greeting shown in an empty buffer.
pub open spec fn welcome_text() -> Seq<char> {
    "hecto editor -- version 0.1.0"@
}

/// The welcome row for a given width: a tilde, then the greeting centered
/// in the remaining columns; just a tilde when it does not fit, and nothing
/// at width zero.
pub open spec fn welcome_row(width: int) -> Seq<char> {
    if width == 0 {
        Seq::empty()
    } else {
        let msg = welcome_text();
        let remaining = width - 1;
        if remaining < msg.len() {
            seq!['~']
        } else {
            let lp = (remaining - msg.len()) / 2;
            let rp = remaining - msg.len() - lp;
            seq!['~'] + spaces(lp) + msg + spaces(rp)
        }
    }
}

/// What one visible row shows: the matching document line horizontally
/// sliced to the visible columns; past the document, a tilde placeholder;
/// and, in an empty buffer, the welcome row a third of the way down.
pub open spec fn row_text(v: View, r: int) -> Seq<char> {
    let top = v.scroll_offset.row as int;
    let left = v.scroll_offset.col as int;
    let doc_row = capped_sum(r, top);
    if doc_row < v.buf.lines@.len() {
        visible_chars(v.buf.lines@[doc_row]@, left, capped_sum(left, v.size.width as int))
    } else if r == v.size.height as int / 3 && v.buf.lines@.len() == 0 {
        welcome_row(v.size.width as int)
    } else {
        seq!['~']
    }
}

/// The viewport over one document: its buffer, the cursor, the scroll
/// offset, the visible size, and the redraw flag.
pub struct View {
    pub buf: Buffer,
    pub need_redraw: bool,
    pub size: Size,
    pub margin_bottom: usize,
    pub text_location: Location,
    pub scroll_offset: Position,
}

impl View {
    /// The buffer's lines are well-formed.
    pub open spec fn wf(&self) -> bool {
        self.buf.wf()
    }

    /// A viewport over an empty buffer, reserving `margin_bottom` rows of
    /// the given terminal size for other components.
    pub fn new(size: Size, margin_bottom: usize) -> (r: View)
        ensures
            r.wf(),
            r.buf.lines@.len() == 0,
            !r.buf.dirty,
            r.buf.file_info.path is None,
            r.need_redraw,
            r.size.width == size.width,
            r.size.height == if size.height >= margin_bottom {
                size.height - margin_bottom
            } else {
                0
            },
            r.margin_bottom == margin_bottom,
            r.text_location.line_index == 0 && r.text_location.grapheme_index == 0,
            r.scroll_offset.row == 0 && r.scroll_offset.col == 0,
    {
        View {
            buf: Buffer::default(),
            need_redraw: true,
            size: Size {
                height: if size.height >= margin_bottom {
                    size.height - margin_bottom
                } else {
                    0
                },
                width: size.width,
            },
            margin_bottom,
            text_location: Location::default(),
            scroll_offset: Position::default(),
        }
    }

    /// Scrolls the vertical offset just enough to bring document row `to`
    /// into view; marks a redraw only when the offset moved.
    pub fn scroll_vertically(&mut self, to: usize)
        ensures
            final(self).buf == old(self).buf,
            final(self).size == old(self).size,
            final(self).margin_bottom == old(self).margin_bottom,
            final(self).text_location == old(self).text_location,
            final(self).scroll_offset.col == old(self).scroll_offset.col,
            final(self).scroll_offset.row == scroll_adjust(
                old(self).scroll_offset.row as int,
                to as int,
                old(self).size.height as int,
            ),
            final(self).need_redraw == (old(self).need_redraw || final(self).scroll_offset.row
                != old(self).scroll_offset.row),
    {
        let height = self.size.height;
        if to < self.scroll_offset.row {
            self.scroll_offset.row = to;
            self.need_redraw = true;
        } else if to - self.scroll_offset.row >= height {
            let base = to - height;
            let target = if base < usize::MAX {
                base + 1
            } else {
                usize::MAX
            };
            let changed = target != self.scroll_offset.row;
            self.scroll_offset.row = target;
            if changed {
                self.need_redraw = true;
            }
        }
    }

    /// Scrolls the horizontal offset just enough to bring document column
    /// `to` into view; marks a redraw only when the offset moved.
    pub fn scroll_horizontally(&mut self, to: usize)
        ensures
            final(self).buf == old(self).buf,
            final(self).size == old(self).size,
            final(self).margin_bottom == old(self).margin_bottom,
            final(self).text_location == old(self).text_location,
            final(self).scroll_offset.row == old(self).scroll_offset.row,
            final(self).scroll_offset.col == scroll_adjust(
                old(self).scroll_offset.col as int,
                to as int,
                old(self).size.width as int,
            ),
            final(self).need_redraw == (old(self).need_redraw || final(self).scroll_offset.col
                != old(self).scroll_offset.col),
    {
        let width = self.size.width;
        if to < self.scroll_offset.col {
            self.scroll_offset.col = to;
            self.need_redraw = true;
        } else if to - self.scroll_offset.col >= width {
            let base = to - width;
            let target = if base < usize::MAX {
                base + 1
            } else {
                usize::MAX
            };
            let changed = target != self.scroll_offset.col;
            self.scroll_offset.col = target;
            if changed {
                self.need_redraw = true;
            }
        }
    }

    /// Maps the cursor location to its document-space screen position: the
    /// row is its line index, the column the width of everything left of it.
    pub fn text_location_to_position(&self) -> (r: Position)
        requires
            self.wf(),
        ensures
            r.row == row_of(self.text_location),
            r.col == col_of(self.buf, self.text_location),
    {
        let row = self.text_location.line_index;
        let col = if row < self.buf.lines.len() {
            self.buf.lines[row].width_until(self.text_location.grapheme_index)
        } else {
            0
        };
        Position { col, row }
    }

    /// Re-runs the scroll-into-view pass for the current cursor location:
    /// afterwards the cursor is inside any non-empty visible rectangle.
    pub fn scroll_text_location_into_view(&mut self)
        requires
            old(self).wf(),
        ensures
            final(self).wf(),
            final(self).buf == old(self).buf,
            final(self).size == old(self).size,
            final(self).margin_bottom == old(self).margin_bottom,
            final(self).text_location == old(self).text_location,
            final(self).scroll_offset.row == scroll_adjust(
                old(self).scroll_offset.row as int,
                row_of(old(self).text_location),
                old(self).size.height as int,
            ),
            final(self).scroll_offset.col == scroll_adjust(
                old(self).scroll_offset.col as int,
                col_of(old(self).buf, old(self).text_location),
                old(self).size.width as int,
            ),
            final(self).need_redraw == (old(self).need_redraw || final(self).scroll_offset != old(
                self,
            ).scroll_offset),
            final(self).size.height > 0 && final(self).size.width > 0 ==> cursor_visible(
                *final(self),
            ),
    {
        let pos = self.text_location_to_position();
        self.scroll_vertically(pos.row);
        self.scroll_horizontally(pos.col);
        proof {
            if self.size.height > 0 && self.size.width > 0 {
                lemma_scroll_contains(
                    old(self).scroll_offset.row as int,
                    row_of(old(self).text_location),
                    old(self).size.height as int,
                );
                lemma_scroll_contains(
                    old(self).scroll_offset.col as int,
                    col_of(old(self).buf, old(self).text_location),
                    old(self).size.width as int,
                );
            }
        }
    }

    /// The cursor's position on screen: its document position less the
    /// scroll offset, held at zero.
    pub fn caret_position(&self) -> (r: Position)
        requires
            self.wf(),
        ensures
            r.row == if row_of(self.text_location) >= self.scroll_offset.row {
                row_of(self.text_location) - self.scroll_offset.row
            } else {
                0
            },
            r.col == if col_of(self.buf, self.text_location) >= self.scroll_offset.col {
                col_of(self.buf, self.text_location) - self.scroll_offset.col
            } else {
                0
            },
    {
        let pos = self.text_location_to_position();
        pos.saturating_sub(&self.scroll_offset)
    }

    /// Adopts a new terminal size, keeping the bottom margin reserved, and
    /// scrolls the cursor back into view.
    pub fn resize(&mut self, to: Size)
        requires
            old(self).wf(),
        ensures
            final(self).wf(),
            resize_post(*old(self), *final(self), to),
    {
        self.size = Size {
            height: if to.height >= self.margin_bottom {
                to.height - self.margin_bottom
            } else {
                0
            },
            width: to.width,
        };
        self.scroll_text_location_into_view();
        self.need_redraw = true;
    }

    /// Only the cursor location differs; buffer, sizes, scroll state and
    /// redraw flag are untouched.
    pub open spec fn same_but_cursor(pre: View, post: View) -> bool {
        &&& post.buf == pre.buf
        &&& post.size == pre.size
        &&& post.margin_bottom == pre.margin_bottom
        &&& post.scroll_offset == pre.scroll_offset
        &&& post.need_redraw == pre.need_redraw
    }

    /// Clamps the cursor's grapheme position to its line's count; a line
    /// index out of range snaps the position to zero.
    pub fn snap_to_valid_grapheme(&mut self)
        ensures
            Self::same_but_cursor(*old(self), *final(self)),
            final(self).text_location.line_index == old(self).text_location.line_index,
            final(self).text_location.grapheme_index == clamp_to_count(
                old(self).text_location.grapheme_index as int,
                line_count_at(old(self).buf, old(self).text_location.line_index as int),
            ),
    {
        let li = self.text_location.line_index;
        let gi = self.text_location.grapheme_index;
        self.text_location.grapheme_index = if li < self.buf.lines.len() {
            let count = self.buf.lines[li].grapheme_count();
            if gi <= count {
                gi
            } else {
                count
            }
        } else {
            0
        };
    }

    /// Clamps the cursor's line index to the buffer height (one past the
    /// last line is a valid insertion point).
    pub fn snap_to_valid_line(&mut self)
        ensures
            Self::same_but_cursor(*old(self), *final(self)),
            final(self).text_location.grapheme_index == old(self).text_location.grapheme_index,
            final(self).text_location.line_index == if old(self).text_location.line_index
                <= old(self).buf.lines@.len() {
                old(self).text_location.line_index as int
            } else {
                old(self).buf.lines@.len() as int
            },
    {
        let h = self.buf.lines.len();
        if self.text_location.line_index > h {
            self.text_location.line_index = h;
        }
    }

    /// Moves the cursor up by `step` lines, clamping its grapheme position
    /// to the destination line.
    pub fn move_up(&mut self, step: usize)
        ensures
            Self::same_but_cursor(*old(self), *final(self)),
            (
                final(self).text_location.line_index as int,
                final(self).text_location.grapheme_index as int,
            ) == moved_up(
                old(self).buf,
                old(self).text_location.line_index as int,
                old(self).text_location.grapheme_index as int,
                step as int,
            ),
    {
        let li = self.text_location.line_index;
        self.text_location.line_index = if li >= step {
            li - step
        } else {
            0
        };
        self.snap_to_valid_grapheme();
    }

    /// Moves the cursor down by `step` lines, clamping its grapheme position
    /// to the destination line and its line index to the buffer height.
    pub fn move_down(&mut self, step: usize)
        ensures
            Self::same_but_cursor(*old(self), *final(self)),
            (
                final(self).text_location.line_index as int,
                final(self).text_location.grapheme_index as int,
            ) == moved_down(
                old(self).buf,
                old(self).text_location.line_index as int,
                old(self).text_location.grapheme_index as int,
                step as int,
            ),
    {
        let li = self.text_location.line_index;
        self.text_location.line_index = if li <= usize::MAX - step {
            li + step
        } else {
            usize::MAX
        };
        self.snap_to_valid_grapheme();
        self.snap_to_valid_line();
    }

    /// Moves the cursor one grapheme right, or to the start of the next line
    /// from the end of one.
    pub fn move_right(&mut self)
        ensures
            Self::same_but_cursor(*old(self), *final(self)),
            (
                final(self).text_location.line_index as int,
                final(self).text_location.grapheme_index as int,
            ) == moved_right(
                old(self).buf,
                old(self).text_location.line_index as int,
                old(self).text_location.grapheme_index as int,
            ),
    {
        let li = self.text_location.line_index;
        let count = if li < self.buf.lines.len() {
            self.buf.lines[li].grapheme_count()
        } else {
            0
        };
        if self.text_location.grapheme_index < count {
            self.text_location.grapheme_index = self.text_location.grapheme_index + 1;
        } else {
            self.move_to_start_line();
            self.move_down(1);
        }
    }

    /// Moves the cursor one grapheme left, or to the end of the previous
    /// line from the start of one; at the document start it stays.
    pub fn move_left(&mut self)
        ensures
            Self::same_but_cursor(*old(self), *final(self)),
            (
                final(self).text_location.line_index as int,
                final(self).text_location.grapheme_index as int,
            ) == moved_left(
                old(self).buf,
                old(self).text_location.line_index as int,
                old(self).text_location.grapheme_index as int,
            ),
    {
        if self.text_location.grapheme_index > 0 {
            self.text_location.grapheme_index = self.text_location.grapheme_index - 1;
        } else if self.text_location.line_index > 0 {
            self.move_up(1);
            self.move_to_end_line();
        }
    }

    /// Moves the cursor to the start of its line.
    pub fn move_to_start_line(&mut self)
        ensures
            Self::same_but_cursor(*old(self), *final(self)),
            final(self).text_location.line_index == old(self).text_location.line_index,
            final(self).text_location.grapheme_index == 0,
    {
        self.text_location.grapheme_index = 0;
    }

    /// Moves the cursor to the end of its line (or position zero when the
    /// line index is out of range).
    pub fn move_to_end_line(&mut self)
        ensures
            Self::same_but_cursor(*old(self), *final(self)),
            final(self).text_location.line_index == old(self).text_location.line_index,
            final(self).text_location.grapheme_index == line_count_at(
                old(self).buf,
                old(self).text_location.line_index as int,
            ),
    {
        let li = self.text_location.line_index;
        self.text_location.grapheme_index = if li < self.buf.lines.len() {
            self.buf.lines[li].grapheme_count()
        } else {
            0
        };
    }

    /// Applies one movement command and scrolls the cursor back into view.
    pub fn move_text_location(&mut self, direction: Direction)
        requires
            old(self).wf(),
        ensures
            final(self).wf(),
            move_post(*old(self), *final(self), direction),
    {
        let height = self.size.height;
        match direction {
            Direction::Up => self.move_up(1),
            Direction::Down => self.move_down(1),
            Direction::Left => self.move_left(),
            Direction::Right => self.move_right(),
            Direction::PageUp => self.move_up(
                if height >= 1 {
                    height - 1
                } else {
                    0
                },
            ),
            Direction::PageDown => self.move_down(
                if height >= 1 {
                    height - 1
                } else {
                    0
                },
            ),
            Direction::Home => self.move_to_start_line(),
            Direction::End => self.move_to_end_line(),
        }
        self.snap_to_valid_grapheme();
        self.snap_to_valid_line();
        self.scroll_text_location_into_view();
    }

    /// Inserts a typed character at the cursor; if the addressed line grew,
    /// the cursor advances right so it sits just after the new text.
    pub fn insert_char(&mut self, character: char)
        requires
            old(self).wf(),
        ensures
            final(self).wf(),
            insert_char_view_post(*old(self), *final(self), character),
    {
        let li = self.text_location.line_index;
        let old_len = if li < self.buf.lines.len() {
            self.buf.lines[li].grapheme_count()
        } else {
            0
        };
        self.buf.insert_char(character, self.text_location);
        let new_len = if li < self.buf.lines.len() {
            self.buf.lines[li].grapheme_count()
        } else {
            0
        };
        if new_len > old_len {
            self.move_text_location(Direction::Right);
        }
        self.need_redraw = true;
    }

    /// Inserts a line break at the cursor and moves the cursor to the start
    /// of the newly created line.
    pub fn insert_newline(&mut self)
        requires
            old(self).wf(),
        ensures
            final(self).wf(),
            insert_newline_view_post(*old(self), *final(self)),
    {
        self.buf.insert_newline(self.text_location);
        self.move_text_location(Direction::Right);
        self.need_redraw = true;
    }

    /// Deletes forward at the cursor; the cursor itself does not move.
    pub fn delete(&mut self)
        requires
            old(self).wf(),
        ensures
            final(self).wf(),
            delete_view_post(*old(self), *final(self)),
    {
        self.buf.delete(self.text_location);
        self.need_redraw = true;
    }

    /// Deletes backward: moves the cursor left, then deletes forward there.
    /// At the very start of the document this is a no-op.
    pub fn backspace(&mut self)
        requires
            old(self).wf(),
        ensures
            final(self).wf(),
            backspace_post(*old(self), *final(self)),
    {
        if self.text_location.line_index != 0 || self.text_location.grapheme_index != 0 {
            self.move_text_location(Direction::Left);
            self.delete();
        }
    }

    /// Consumes one command. `Quit` and `Save` are decisions for the
    /// enclosing loop and leave the engine untouched.
    pub fn handle_command(&mut self, command: EditorCommand)
        requires
            old(self).wf(),
        ensures
            final(self).wf(),
            match command {
                EditorCommand::Move(direction) => move_post(*old(self), *final(self), direction),
                EditorCommand::Resize(to) => resize_post(*old(self), *final(self), to),
                EditorCommand::Quit => *final(self) == *old(self),
                EditorCommand::Save => *final(self) == *old(self),
                EditorCommand::Insert(c) => insert_char_view_post(*old(self), *final(self), c),
                EditorCommand::Backspace => backspace_post(*old(self), *final(self)),
                EditorCommand::Delete => delete_view_post(*old(self), *final(self)),
                EditorCommand::Enter => insert_newline_view_post(*old(self), *final(self)),
            },
    {
        match command {
            EditorCommand::Move(direction) => self.move_text_location(direction),
            EditorCommand::Resize(to) => self.resize(to),
            EditorCommand::Quit => {},
            EditorCommand::Save => {},
            EditorCommand::Insert(c) => self.insert_char(c),
            EditorCommand::Backspace => self.backspace(),
            EditorCommand::Delete => self.delete(),
            EditorCommand::Enter => self.insert_newline(),
        }
    }

    /// Replaces the buffer with one loaded from already-decoded text and
    /// marks a redraw. Cursor, scroll state and size are untouched; when a
    /// read fails the caller simply never gets here, leaving the buffer as
    /// it was.
    pub fn load(&mut self, contents: &str, file_name: &str)
        ensures
            final(self).wf(),
            final(self).size == old(self).size,
            final(self).margin_bottom == old(self).margin_bottom,
            final(self).text_location == old(self).text_location,
            final(self).scroll_offset == old(self).scroll_offset,
            final(self).need_redraw,
            !final(self).buf.dirty,
            final(self).buf.file_info.path is Some && final(self).buf.file_info.path->0@
                == file_name@,
            final(self).buf.lines@.len() == split_lines(contents@).len(),
            forall|k: int|
                0 <= k < final(self).buf.lines@.len() ==> line_from_segment(
                    #[trigger] final(self).buf.lines@[k],
                    split_lines(contents@)[k],
                ),
            contents@.len() <= LINE_MAX ==> forall|k: int|
                0 <= k < final(self).buf.lines@.len() ==> line_chars(
                    (#[trigger] final(self).buf.lines@[k])@,
                ) == split_lines(contents@)[k],
    {
        self.buf = Buffer::load(contents, file_name);
        self.need_redraw = true;
    }

    /// The read-only status snapshot a status-line component polls.
    pub fn get_status(&self) -> (r: DocumentStatus)
        ensures
            r.total_lines == self.buf.lines@.len(),
            r.current_line_index == self.text_location.line_index,
            r.is_modified == self.buf.dirty,
            r.file_name@ == display_name_spec(self.buf.file_info),
    {
        DocumentStatus {
            total_lines: self.buf.height(),
            current_line_index: self.text_location.line_index,
            is_modified: self.buf.dirty,
            file_name: self.buf.file_info.display_name(),
        }
    }

    /// The welcome row for a given width, as rendered text.
    pub fn render_welcome_message(width: usize) -> (r: String)
        ensures
            r@ == welcome_row(width as int),
    {
        if width == 0 {
            return String::new();
        }
        let msg = "hecto editor -- version 0.1.0";
        let len = msg.unicode_len();
        let remaining = width - 1;
        if remaining < len {
            let tilde = String::from_str("~");
            proof {
                reveal_strlit("~");
                assert(tilde@ =~= seq!['~']);
            }
            return tilde;
        }
        let lp = (remaining - len) / 2;
        let rp = remaining - len - lp;
        let mut out = String::from_str("~");
        proof {
            reveal_strlit("~");
            reveal_strlit(" ");
            assert(out@ =~= seq!['~'] + spaces(0));
        }
        for i in 0..lp
            invariant
                out@ == seq!['~'] + spaces(i as int),
        {
            out.append(" ");
            proof {
                reveal_strlit(" ");
                assert(spaces(i + 1) =~= spaces(i as int) + seq![' ']);
                assert(out@ =~= seq!['~'] + spaces(i + 1));
            }
        }
        out.append(msg);
        let ghost mid = seq!['~'] + spaces(lp as int) + welcome_text();
        proof {
            assert(out@ =~= mid + spaces(0));
        }
        for i in 0..rp
            invariant
                out@ == mid + spaces(i as int),
        {
            out.append(" ");
            proof {
                reveal_strlit(" ");
                assert(spaces(i + 1) =~= spaces(i as int) + seq![' ']);
                assert(out@ =~= mid + spaces(i + 1));
            }
        }
        proof {
            assert(out@ =~= seq!['~'] + spaces(lp as int) + welcome_text() + spaces(rp as int));
        }
        out
    }

    /// The visible rows, top to bottom, when a redraw is due and the visible
    /// rectangle is non-empty; the redraw flag then clears. A skipped render
    /// (nothing due, or nothing visible) yields no rows and leaves the flag
    /// alone.
    pub fn render(&mut self) -> (rows: Vec<String>)
        requires
            old(self).wf(),
        ensures
            final(self).wf(),
            final(self).buf == old(self).buf,
            final(self).size == old(self).size,
            final(self).margin_bottom == old(self).margin_bottom,
            final(self).text_location == old(self).text_location,
            final(self).scroll_offset == old(self).scroll_offset,
            final(self).need_redraw == (old(self).need_redraw && (old(self).size.height == 0 || old(
                self,
            ).size.width == 0)),
            !(old(self).need_redraw && old(self).size.height > 0 && old(self).size.width > 0)
                ==> rows@.len() == 0,
            old(self).need_redraw && old(self).size.height > 0 && old(self).size.width > 0 ==> {
                &&& rows@.len() == old(self).size.height
                &&& forall|r: int|
                    0 <= r < rows@.len() ==> (#[trigger] rows@[r])@ == row_text(*old(self), r)
            },
    {
        if !self.need_redraw || self.size.height == 0 || self.size.width == 0 {
            return Vec::new();
        }
        let height = self.size.height;
        let width = self.size.width;
        let vertical_center = height / 3;
        let top = self.scroll_offset.row;
        let left = self.scroll_offset.col;
        let ghost pre = *self;
        let mut rows: Vec<String> = Vec::new();
        for curr_row in 0..height
            invariant
                *self == pre,
                pre.wf(),
                height == pre.size.height,
                width == pre.size.width,
                vertical_center == height / 3,
                top == pre.scroll_offset.row,
                left == pre.scroll_offset.col,
                rows@.len() == curr_row,
                forall|r: int| 0 <= r < curr_row ==> (#[trigger] rows@[r])@ == row_text(pre, r),
        {
            let doc_row = if curr_row <= usize::MAX - top {
                curr_row + top
            } else {
                usize::MAX
            };
            if doc_row < self.buf.lines.len() {
                let right = if width <= usize::MAX - left {
                    left + width
                } else {
                    usize::MAX
                };
                rows.push(self.buf.lines[doc_row].get_visible_graphemes(left, right));
            } else if curr_row == vertical_center && self.buf.lines.len() == 0 {
                rows.push(Self::render_welcome_message(width));
            } else {
                let tilde = String::from_str("~");
                proof {
                    reveal_strlit("~");
                    assert(tilde@ =~= seq!['~']);
                }
                rows.push(tilde);
            }
        }
        self.need_redraw = false;
        rows
    }

    /// Records a confirmed persist of the buffer: the dirty flag clears,
    /// nothing else changes. To be called only once the external write has
    /// succeeded.
    pub fn confirm_saved(&mut self)
        ensures
            final(self).buf.lines == old(self).buf.lines,
            final(self).buf.file_info == old(self).buf.file_info,
            !final(self).buf.dirty,
            final(self).size == old(self).size,
            final(self).margin_bottom == old(self).margin_bottom,
            final(self).text_location == old(self).text_location,
            final(self).scroll_offset == old(self).scroll_offset,
            final(self).need_redraw == old(self).need_redraw,
    {
        self.buf.mark_saved();
    }
}

} // verus!
