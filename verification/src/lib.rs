//! Editing core of a terminal text editor: a grapheme-aware line and buffer
//! model, a cursor/viewport engine, and a closed command model.

pub mod buffer;
pub mod command;
pub mod editor;
pub mod fileinfo;
pub mod line;
pub mod location;
pub mod messagebar;
pub mod screen;
pub mod status;
pub mod statusbar;
pub mod uicomponent;
pub mod viewport;
