//! The editor state and the dispatch of actions onto it.

pub mod editor;
