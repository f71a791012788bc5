//! Errors of the buffer family.

use vstd::prelude::*;

verus! {

use crate::buffer::buffer::Mode;

/// Everything a buffer operation can report.  Every mutating operation
/// returns a result; no operation aborts the process.
#[derive(Debug, PartialEq, Eq, Clone, Copy, Structural)]
pub enum Error {
    /// Writing the buffer back to its source failed.
    WriteToSourceError,
    /// The named file does not exist.
    FileNotFoundError,
    /// The operation is not legal in the buffer's current mode.
    WrongModeError { current_mode: Mode },
    /// The buffer is of the wrong kind for the operation.
    WrongKindError,
    /// The source the buffer was built from cannot be used.
    InvalidSourceError,
    /// The visual anchor is missing although the buffer is in visual
    /// mode; only a faulty mode transition can cause this.
    VisualModeInitError,
    /// The input cannot be read as a path.
    ConvertToPathError,
    /// A directory listing failed.
    ReadDirectoryError,
    /// No completion candidate matches the input.
    NoMatchError,
    /// The accumulated path names nothing usable.
    InvalidPathError,
    /// The buffer is locked against mutation.
    ImmutableBufferError,
}

impl Error {
    /// The message a banner or a log line shows for this error.
    pub fn message(&self) -> (r: Vec<char>)
        ensures
            self is WriteToSourceError ==> r@ == "WriteToSourceError: failed to write to the source"@,
            self is FileNotFoundError ==> r@ == "FileNotFoundError: no file at this path"@,
            self matches Error::WrongModeError { .. } ==> r@
                == "WrongModeError: the current mode does not allow this action"@,
            self is WrongKindError ==> r@ == "WrongKindError: wrong kind of buffer for this action"@,
            self is InvalidSourceError ==> r@ == "InvalidSourceError: the source cannot be used"@,
            self is VisualModeInitError ==> r@
                == "VisualModeInitError: visual mode has no anchor"@,
            self is ConvertToPathError ==> r@
                == "ConvertToPathError: the input does not name a path"@,
            self is ReadDirectoryError ==> r@
                == "ReadDirectoryError: failed to read the directory"@,
            self is NoMatchError ==> r@ == "NoMatchError: nothing matches the input"@,
            self is InvalidPathError ==> r@ == "InvalidPathError: the path names nothing usable"@,
            self is ImmutableBufferError ==> r@
                == "ImmutableBufferError: this buffer cannot be edited"@,
    {
        match self {
            Error::WriteToSourceError => crate::text::str_to_line(
                "WriteToSourceError: failed to write to the source",
            ),
            Error::FileNotFoundError => crate::text::str_to_line(
                "FileNotFoundError: no file at this path",
            ),
            Error::WrongModeError { .. } => crate::text::str_to_line(
                "WrongModeError: the current mode does not allow this action",
            ),
            Error::WrongKindError => crate::text::str_to_line(
                "WrongKindError: wrong kind of buffer for this action",
            ),
            Error::InvalidSourceError => crate::text::str_to_line(
                "InvalidSourceError: the source cannot be used",
            ),
            Error::VisualModeInitError => crate::text::str_to_line(
                "VisualModeInitError: visual mode has no anchor",
            ),
            Error::ConvertToPathError => crate::text::str_to_line(
                "ConvertToPathError: the input does not name a path",
            ),
            Error::ReadDirectoryError => crate::text::str_to_line(
                "ReadDirectoryError: failed to read the directory",
            ),
            Error::NoMatchError => crate::text::str_to_line(
                "NoMatchError: nothing matches the input",
            ),
            Error::InvalidPathError => crate::text::str_to_line(
                "InvalidPathError: the path names nothing usable",
            ),
            Error::ImmutableBufferError => crate::text::str_to_line(
                "ImmutableBufferError: this buffer cannot be edited",
            ),
        }
    }
}

} // verus!
