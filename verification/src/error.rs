//! The crate-wide error type.

use vstd::prelude::*;

verus! {

/// Any failure the editor can report: a buffer operation's own error,
/// or an index that points at no buffer.
#[derive(Debug, PartialEq, Eq, Clone, Copy, Structural)]
pub enum OxideError {
    BufferError(crate::buffer::error::Error),
    IndexError,
}

impl From<crate::buffer::error::Error> for OxideError {
    fn from(error: crate::buffer::error::Error) -> (r: OxideError) {
        OxideError::BufferError(error)
    }
}

impl vstd::std_specs::convert::FromSpecImpl<crate::buffer::error::Error> for OxideError {
    open spec fn obeys_from_spec() -> bool {
        true
    }

    open spec fn from_spec(error: crate::buffer::error::Error) -> OxideError {
        OxideError::BufferError(error)
    }
}

} // verus!
