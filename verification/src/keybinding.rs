//! Key handling: abstract key presses, the chord-resolving binding
//! table, the command grammar, and the actions they produce.

pub mod actions;
pub mod keybinding;
