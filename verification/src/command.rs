//! The closed set of editing and navigation intents the core consumes. An
//! external adapter turns raw input events into these; unrecognized input
//! simply yields no command.

use vstd::prelude::*;

use crate::screen::Size;

verus! {

/// A cursor movement intent.
#[derive(Copy, Clone)]
pub enum Direction {
    PageUp,
    PageDown,
    Home,
    End,
    Up,
    Left,
    Right,
    Down,
}

/// An editing or navigation intent. `Quit` and `Save` are decisions for the
/// enclosing loop: the engine itself leaves its state unchanged on them.
#[derive(Copy, Clone)]
pub enum EditorCommand {
    Move(Direction),
    Resize(Size),
    Quit,
    Insert(char),
    Backspace,
    Delete,
    Enter,
    Save,
}

} // verus!
