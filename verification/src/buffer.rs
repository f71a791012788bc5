//! The buffer family: content model, cursor, viewport, modal editing
//! operations, and the command-line / minibuffer sub-editors.

pub mod buffer;
pub mod command_line;
pub mod manipulation;
pub mod navigation;
pub mod error;
pub mod minibuffer;
pub mod viewport;
