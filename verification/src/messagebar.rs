//! The transient message row: shows the latest message until it expires,
//! then clears itself exactly once. Time reaches the core only as a plain
//! millisecond clock handed in by the enclosing loop.

use vstd::prelude::*;

use crate::screen::Size;
use crate::uicomponent::UIComponent;

verus! {

/// How long a message stays on screen, in milliseconds.
pub const MESSAGE_EXPIRY_MS: u64 = 5000;

/// A message and the clock reading at which it was posted.
pub struct Message {
    pub text: String,
    pub stamp: u64,
}

impl Default for Message {
    /// An empty message posted at clock zero.
    fn default() -> (r: Self)
        ensures
            r.text@ == Seq::<char>::empty(),
            r.stamp == 0,
    {
        Message { text: String::new(), stamp: 0 }
    }
}

/// Whether a message has outlived its time at clock reading `now`; a clock
/// that ran backwards counts as no age at all.
pub open spec fn message_expired(m: Message, now: u64) -> bool {
    (if now >= m.stamp {
        now - m.stamp
    } else {
        0
    }) > MESSAGE_EXPIRY_MS
}

impl Message {
    /// Whether the message has outlived its time at clock reading `now`.
    pub fn is_expired(&self, now: u64) -> (r: bool)
        ensures
            r == message_expired(*self, now),
    {
        let age = if now >= self.stamp {
            now - self.stamp
        } else {
            0
        };
        age > MESSAGE_EXPIRY_MS
    }
}

/// The message row. After a message expires it is cleared by one further
/// draw of an empty row, and only one, tracked by `cleared_after_expiry`.
pub struct MessageBar {
    pub current_message: Message,
    pub needs_redraw: bool,
    pub cleared_after_expiry: bool,
    pub clock: u64,
}

impl Default for MessageBar {
    /// An empty bar with nothing due.
    fn default() -> (r: Self)
        ensures
            r.current_message.text@ == Seq::<char>::empty(),
            r.current_message.stamp == 0,
            !r.needs_redraw,
            !r.cleared_after_expiry,
            r.clock == 0,
    {
        MessageBar {
            current_message: Message::default(),
            needs_redraw: false,
            cleared_after_expiry: false,
            clock: 0,
        }
    }
}

impl MessageBar {
    /// Advances the bar's view of the external clock.
    pub fn tick(&mut self, now: u64)
        ensures
            final(self).clock == now,
            final(self).current_message == old(self).current_message,
            final(self).needs_redraw == old(self).needs_redraw,
            final(self).cleared_after_expiry == old(self).cleared_after_expiry,
    {
        self.clock = now;
    }

    /// Posts a new message at clock reading `now` and marks a redraw due.
    pub fn update_message(&mut self, new_message: String, now: u64)
        ensures
            final(self).current_message.text == new_message,
            final(self).current_message.stamp == now,
            final(self).clock == now,
            !final(self).cleared_after_expiry,
            final(self).needs_redraw,
    {
        self.current_message = Message { text: new_message, stamp: now };
        self.clock = now;
        self.cleared_after_expiry = false;
        self.needs_redraw = true;
    }
}

impl UIComponent for MessageBar {
    open spec fn redraw_flag(&self) -> bool {
        self.needs_redraw
    }

    open spec fn redraw_due(&self) -> bool {
        (!self.cleared_after_expiry && message_expired(self.current_message, self.clock))
            || self.needs_redraw
    }

    /// An expired message draws as an empty row; a live one as its text.
    open spec fn drawn_row(&self) -> Seq<char> {
        if message_expired(self.current_message, self.clock) {
            Seq::empty()
        } else {
            self.current_message.text@
        }
    }

    /// Drawing an expired message records the clear, so with the stored
    /// flag down no further redraw is due and the row is cleared exactly
    /// once; nothing else changes.
    open spec fn draw_done(&self, pre: Self) -> bool {
        &&& self.current_message == pre.current_message
        &&& self.needs_redraw == pre.needs_redraw
        &&& self.clock == pre.clock
        &&& self.cleared_after_expiry == (pre.cleared_after_expiry || message_expired(
            pre.current_message,
            pre.clock,
        ))
    }

    /// The message row spans the whole width whatever it is; nothing is
    /// kept of the size.
    open spec fn resized(&self, pre: Self, size: Size) -> bool {
        *self == pre
    }

    fn mark_redraw(&mut self, b: bool) {
        self.needs_redraw = b;
    }

    fn needs_redraw(&self) -> (r: bool) {
        (!self.cleared_after_expiry && self.current_message.is_expired(self.clock))
            || self.needs_redraw
    }

    fn set_size(&mut self, size: Size) {
        proof {
            assert(UIComponent::resized(self, *old(self), size));
        }
    }

    fn draw(&mut self) -> (r: String) {
        let r = if self.current_message.is_expired(self.clock) {
            // One draw of an empty row clears the expired message; the flag
            // keeps any later skipped render from clearing it again.
            self.cleared_after_expiry = true;
            String::new()
        } else {
            String::from_str(self.current_message.text.as_str())
        };
        proof {
            assert(UIComponent::draw_done(self, *old(self)));
        }
        r
    }
}

} // verus!
