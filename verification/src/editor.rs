//! The editor session: one viewport over one buffer, the two chrome bars,
//! and the quit flag. It consumes commands; the enclosing loop does the
//! reading, drawing and persisting.

use vstd::prelude::*;
use vstd::view::View as _;

use crate::command::EditorCommand;
use crate::fileinfo::display_name_spec;
use crate::messagebar::MessageBar;
use crate::screen::Size;
use crate::statusbar::same_status;
use crate::statusbar::Statusbar;
use crate::viewport::move_post;
use crate::viewport::resize_post;
use crate::viewport::backspace_post;
use crate::viewport::delete_view_post;
use crate::viewport::insert_char_view_post;
use crate::viewport::insert_newline_view_post;
use crate::viewport::View;

verus! {

/// Rows at the bottom of the terminal reserved for the status and message
/// bars.
pub const BAR_ROWS: usize = 2;

/// The window title's suffix.
pub open spec fn title_text(name: Seq<char>) -> Seq<char> {
    name + " - hecto"@
}

/// One editing session.
pub struct Editor {
    pub should_quit: bool,
    pub viewport: View,
    pub status_bar: Statusbar,
    pub message_bar: MessageBar,
    pub terminal_size: Size,
    pub title: String,
}

impl Editor {
    pub open spec fn wf(&self) -> bool {
        self.viewport.wf()
    }

    /// A fresh session for a terminal of the given size, at clock reading
    /// `now`: an empty untitled buffer, the bottom rows reserved for the
    /// bars, and the help message posted.
    pub fn new(size: Size, now: u64) -> (r: Editor)
        ensures
            r.wf(),
            !r.should_quit,
            r.viewport.buf.lines@.len() == 0,
            !r.viewport.buf.dirty,
            r.viewport.buf.file_info.path is None,
            r.viewport.size.width == size.width,
            r.viewport.size.height == if size.height >= BAR_ROWS {
                size.height - BAR_ROWS
            } else {
                0
            },
            r.viewport.margin_bottom == BAR_ROWS,
            r.viewport.text_location.line_index == 0 && r.viewport.text_location.grapheme_index
                == 0,
            r.viewport.scroll_offset.row == 0 && r.viewport.scroll_offset.col == 0,
            r.terminal_size == size,
            r.title@ == Seq::<char>::empty(),
            r.message_bar.current_message.text@ == "HELP: Ctrl-S = save | Ctrl-Q = quit"@,
            r.message_bar.current_message.stamp == now,
            r.message_bar.needs_redraw,
            r.status_bar.size.height == 1 && r.status_bar.size.width == size.width,
    {
        let mut message_bar = MessageBar::default();
        message_bar.update_message(String::from_str("HELP: Ctrl-S = save | Ctrl-Q = quit"), now);
        let mut status_bar = Statusbar::default();
        status_bar.size = Size { height: 1, width: size.width };
        Editor {
            should_quit: false,
            viewport: View::new(size, BAR_ROWS),
            status_bar,
            message_bar,
            terminal_size: size,
            title: String::new(),
        }
    }

    /// Adopts a new terminal size: the viewport keeps the bottom rows
    /// reserved, and each bar spans one row of the new width.
    pub fn resize(&mut self, size: Size)
        requires
            old(self).wf(),
        ensures
            final(self).wf(),
            final(self).should_quit == old(self).should_quit,
            final(self).title == old(self).title,
            final(self).terminal_size == size,
            resize_post(old(self).viewport, final(self).viewport, size),
            final(self).status_bar.current_status == old(self).status_bar.current_status,
            final(self).status_bar.size.height == 1 && final(self).status_bar.size.width
                == size.width,
            final(self).status_bar.needs_redraw,
            final(self).message_bar.current_message == old(self).message_bar.current_message,
            final(self).message_bar.clock == old(self).message_bar.clock,
            final(self).message_bar.cleared_after_expiry == old(
                self,
            ).message_bar.cleared_after_expiry,
            final(self).message_bar.needs_redraw,
    {
        self.terminal_size = size;
        self.viewport.resize(size);
        self.status_bar.size = Size { height: 1, width: size.width };
        self.status_bar.needs_redraw = true;
        self.message_bar.needs_redraw = true;
    }

    /// Refreshes the status bar from the live document state and returns
    /// the new window title when it changed, for the enclosing loop to set.
    pub fn refresh_status(&mut self) -> (r: Option<String>)
        ensures
            final(self).viewport == old(self).viewport,
            final(self).message_bar == old(self).message_bar,
            final(self).terminal_size == old(self).terminal_size,
            final(self).should_quit == old(self).should_quit,
            final(self).status_bar.size == old(self).status_bar.size,
            final(self).status_bar.current_status.total_lines == old(
                self,
            ).viewport.buf.lines@.len(),
            final(self).status_bar.current_status.current_line_index == old(
                self,
            ).viewport.text_location.line_index,
            final(self).status_bar.current_status.is_modified == old(self).viewport.buf.dirty,
            final(self).status_bar.current_status.file_name@ == display_name_spec(
                old(self).viewport.buf.file_info,
            ),
            final(self).status_bar.needs_redraw == (old(self).status_bar.needs_redraw
                || !same_status(
                old(self).status_bar.current_status,
                final(self).status_bar.current_status,
            )),
            ({
                let t = title_text(display_name_spec(old(self).viewport.buf.file_info));
                if t == old(self).title@ {
                    final(self).title == old(self).title && r is None
                } else {
                    final(self).title@ == t && r is Some && r->0@ == t
                }
            }),
    {
        let status = self.viewport.get_status();
        let mut title = String::from_str(status.file_name.as_str());
        title.append(" - hecto");
        self.status_bar.update_status(status);
        if !(title == self.title) {
            self.title = title.clone();
            Some(title)
        } else {
            None
        }
    }

    /// Applies one command to the session: `Quit` raises the quit flag,
    /// `Resize` reshapes every component, and the rest go to the viewport.
    /// `Save` leaves the state unchanged: the enclosing loop persists the
    /// serialized buffer and then confirms it.
    pub fn execute_command(&mut self, command: EditorCommand)
        requires
            old(self).wf(),
        ensures
            final(self).wf(),
            final(self).title == old(self).title,
            match command {
                EditorCommand::Quit => {
                    &&& final(self).should_quit
                    &&& final(self).viewport == old(self).viewport
                    &&& final(self).status_bar == old(self).status_bar
                    &&& final(self).message_bar == old(self).message_bar
                    &&& final(self).terminal_size == old(self).terminal_size
                },
                EditorCommand::Resize(size) => {
                    &&& final(self).should_quit == old(self).should_quit
                    &&& final(self).terminal_size == size
                    &&& resize_post(old(self).viewport, final(self).viewport, size)
                },
                _ => {
                    &&& final(self).should_quit == old(self).should_quit
                    &&& final(self).status_bar == old(self).status_bar
                    &&& final(self).message_bar == old(self).message_bar
                    &&& final(self).terminal_size == old(self).terminal_size
                    &&& match command {
                        EditorCommand::Move(direction) => move_post(
                            old(self).viewport,
                            final(self).viewport,
                            direction,
                        ),
                        EditorCommand::Insert(c) => insert_char_view_post(
                            old(self).viewport,
                            final(self).viewport,
                            c,
                        ),
                        EditorCommand::Backspace => backspace_post(
                            old(self).viewport,
                            final(self).viewport,
                        ),
                        EditorCommand::Delete => delete_view_post(
                            old(self).viewport,
                            final(self).viewport,
                        ),
                        EditorCommand::Enter => insert_newline_view_post(
                            old(self).viewport,
                            final(self).viewport,
                        ),
                        _ => final(self).viewport == old(self).viewport,
                    }
                },
            },
    {
        match command {
            EditorCommand::Quit => {
                self.should_quit = true;
            },
            EditorCommand::Resize(size) => {
                self.resize(size);
            },
            _ => {
                self.viewport.handle_command(command);
            },
        }
    }
}

} // verus!
