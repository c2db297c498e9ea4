//! The capability shared by stateful screen components: track a redraw
//! flag, adopt a size, and produce their row of text when a redraw is due.

use vstd::prelude::*;

use crate::screen::Size;

verus! {

/// A screen component that renders one row of chrome. A component draws
/// only when it reports a redraw due, and clearing the flag is tied to a
/// produced draw: a skipped render never clears it.
pub trait UIComponent: Sized {
    /// The stored redraw flag.
    spec fn redraw_flag(&self) -> bool;

    /// Whether a redraw is due; may hold even when the stored flag is
    /// clear (a component may have time-driven output).
    spec fn redraw_due(&self) -> bool;

    /// The row of text the component draws in its current state.
    spec fn drawn_row(&self) -> Seq<char>;

    /// How a draw may change the component's own state (beyond the stored
    /// redraw flag, which `render` clears separately).
    spec fn draw_done(&self, pre: Self) -> bool;

    /// How adopting a size changes the component's state.
    spec fn resized(&self, pre: Self, size: Size) -> bool;

    /// Sets the stored redraw flag.
    fn mark_redraw(&mut self, b: bool)
        ensures
            final(self).redraw_flag() == b,
    ;

    /// Whether a redraw is due.
    fn needs_redraw(&self) -> (r: bool)
        ensures
            r == self.redraw_due(),
    ;

    /// Adopts a new size.
    fn set_size(&mut self, size: Size)
        ensures
            final(self).resized(*old(self), size),
    ;

    /// Adopts a new size and marks a redraw due.
    fn resize(&mut self, size: Size)
        ensures
            final(self).redraw_flag(),
    {
        self.set_size(size);
        self.mark_redraw(true);
    }

    /// The component's row of text, drawn unconditionally.
    fn draw(&mut self) -> (r: String)
        ensures
            r@ == old(self).drawn_row(),
            final(self).draw_done(*old(self)),
    ;

    /// Draws only when a redraw is due, clearing the stored flag after a
    /// produced draw; a skipped render leaves the component untouched.
    fn render(&mut self) -> (r: Option<String>)
        ensures
            r is Some ==> old(self).redraw_due() && r->0@ == old(self).drawn_row()
                && !final(self).redraw_flag(),
            r is None ==> !old(self).redraw_due() && *final(self) == *old(self),
    {
        if self.needs_redraw() {
            let row = self.draw();
            self.mark_redraw(false);
            Some(row)
        } else {
            None
        }
    }
}

} // verus!
