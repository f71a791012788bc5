//! Errors of the supporting utilities.

use vstd::prelude::*;

verus! {

/// What kind of utility failure happened.
#[derive(Debug, Clone, Copy, PartialEq, Eq, Structural)]
pub enum ErrorKind {
    LogInitError,
}

/// A utility failure with its message.
#[derive(Debug, Clone)]
pub struct Error {
    pub kind: ErrorKind,
    pub msg: Vec<char>,
}

impl Error {
    pub fn new(kind: ErrorKind, msg: Vec<char>) -> (r: Error)
        ensures
            r.kind == kind,
            r.msg == msg,
    {
        Error { kind, msg }
    }
}

} // verus!
