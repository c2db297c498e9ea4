//! The status row: the document's display name, height, modified marker,
//! and cursor position, right-aligned into the row's width.

use vstd::prelude::*;

use crate::screen::Size;
use crate::status::line_count_text;
use crate::status::modified_text;
use crate::status::position_text;
use crate::status::DocumentStatus;
use crate::uicomponent::UIComponent;
use crate::viewport::spaces;

verus! {

/// The left-hand part of the status row: name, height, modified marker.
pub open spec fn status_beginning(s: DocumentStatus) -> Seq<char> {
    s.file_name@ + " - "@ + line_count_text(s.total_lines as nat) + " "@ + modified_text(
        s.is_modified,
    )
}

/// The whole status row: the beginning, then the position caption
/// right-aligned into the width; an overfull row collapses to nothing.
pub open spec fn status_row(s: DocumentStatus, width: int) -> Seq<char> {
    let beginning = status_beginning(s);
    let pos = position_text(s.current_line_index as nat, s.total_lines as nat);
    let rem = if width >= beginning.len() {
        width - beginning.len()
    } else {
        0
    };
    let pad = if rem >= pos.len() {
        rem - pos.len()
    } else {
        0
    };
    let full = beginning + spaces(pad) + pos;
    if full.len() <= width {
        full
    } else {
        Seq::empty()
    }
}

/// Two snapshots that would render identically.
pub open spec fn same_status(a: DocumentStatus, b: DocumentStatus) -> bool {
    &&& a.total_lines == b.total_lines
    &&& a.current_line_index == b.current_line_index
    &&& a.is_modified == b.is_modified
    &&& a.file_name@ == b.file_name@
}

/// The status row component.
pub struct Statusbar {
    pub current_status: DocumentStatus,
    pub needs_redraw: bool,
    pub size: Size,
}

impl Default for Statusbar {
    /// A bar showing the empty document's status, with nothing due.
    fn default() -> (r: Self)
        ensures
            r.current_status.total_lines == 0,
            r.current_status.current_line_index == 0,
            !r.current_status.is_modified,
            r.current_status.file_name@ == Seq::<char>::empty(),
            !r.needs_redraw,
            r.size.height == 0 && r.size.width == 0,
    {
        Statusbar {
            current_status: DocumentStatus::default(),
            needs_redraw: false,
            size: Size::default(),
        }
    }
}

impl Statusbar {
    /// Adopts a new snapshot, marking a redraw due only when it would
    /// render differently from the current one.
    pub fn update_status(&mut self, new_status: DocumentStatus)
        ensures
            final(self).size == old(self).size,
            same_status(old(self).current_status, new_status) ==> *final(self) == *old(self),
            !same_status(old(self).current_status, new_status) ==> {
                &&& final(self).current_status == new_status
                &&& final(self).needs_redraw
            },
    {
        if !self.current_status.equals(&new_status) {
            self.current_status = new_status;
            self.needs_redraw = true;
        }
    }

    /// The rendered status row for the current snapshot and width.
    pub fn status_text(&self) -> (r: String)
        ensures
            r@ == status_row(self.current_status, self.size.width as int),
    {
        let mut beginning = String::from_str(self.current_status.file_name.as_str());
        beginning.append(" - ");
        let lc = self.current_status.line_count_to_string();
        beginning.append(lc.as_str());
        beginning.append(" ");
        let mi = self.current_status.modified_indicator_to_string();
        beginning.append(mi.as_str());
        proof {
            assert(beginning@ =~= status_beginning(self.current_status));
        }
        let pos = self.current_status.position_indicator_to_string();
        let width = self.size.width;
        let blen = beginning.as_str().unicode_len();
        let plen = pos.as_str().unicode_len();
        let rem = if width >= blen {
            width - blen
        } else {
            0
        };
        let pad = if rem >= plen {
            rem - plen
        } else {
            0
        };
        let ghost beg = beginning@;
        let mut full = beginning;
        proof {
            assert(full@ =~= beg + spaces(0));
        }
        for i in 0..pad
            invariant
                full@ == beg + spaces(i as int),
        {
            full.append(" ");
            proof {
                reveal_strlit(" ");
                assert(spaces(i + 1) =~= spaces(i as int) + seq![' ']);
                assert(full@ =~= beg + spaces(i + 1));
            }
        }
        full.append(pos.as_str());
        proof {
            assert(full@ =~= beg + spaces(pad as int) + pos@);
        }
        let flen = full.as_str().unicode_len();
        if flen <= width {
            full
        } else {
            String::new()
        }
    }
}

impl UIComponent for Statusbar {
    open spec fn redraw_flag(&self) -> bool {
        self.needs_redraw
    }

    open spec fn redraw_due(&self) -> bool {
        self.needs_redraw
    }

    open spec fn drawn_row(&self) -> Seq<char> {
        status_row(self.current_status, self.size.width as int)
    }

    /// Drawing the status row changes nothing.
    open spec fn draw_done(&self, pre: Self) -> bool {
        *self == pre
    }

    open spec fn resized(&self, pre: Self, size: Size) -> bool {
        &&& self.size == size
        &&& self.current_status == pre.current_status
        &&& self.needs_redraw == pre.needs_redraw
    }

    fn mark_redraw(&mut self, b: bool) {
        self.needs_redraw = b;
    }

    fn needs_redraw(&self) -> (r: bool) {
        self.needs_redraw
    }

    fn set_size(&mut self, size: Size) {
        self.size = size;
        proof {
            assert(UIComponent::resized(self, *old(self), size));
        }
    }

    fn draw(&mut self) -> (r: String) {
        let r = self.status_text();
        proof {
            assert(UIComponent::draw_done(self, *old(self)));
        }
        r
    }
}

} // verus!
