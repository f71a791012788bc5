//! Editing core of a modal, terminal-resident text editor: a line-based
//! content model, cursor and viewport bookkeeping, a mode state machine,
//! a multi-key chord resolver, and the completion engines behind the
//! command line and the minibuffer.
//!
//! Terminal rendering, raw input capture and file-system access live
//! outside this crate; the core works on plain values (lines of
//! characters, directory entries, abstract key presses) that the
//! surrounding program hands in.

pub mod buffer;
pub mod editor;
pub mod error;
pub mod keybinding;
pub mod laws;
pub mod text;
pub mod utils;
