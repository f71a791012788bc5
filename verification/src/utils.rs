//! Small utilities shared by the surrounding program.

pub mod error;
