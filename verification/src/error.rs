//! The three ways an operation can go wrong.

use vstd::prelude::*;
use vstd::string::*;

verus! {

/// Name resolution or bringing up the encoding library failed.
///
/// Always recoverable: the caller may try another name.
#[derive(Debug, PartialEq, Eq)]
pub enum EncodingError {
    /// The event name holds a NUL byte, so it cannot be passed on as a C string.
    InvalidName,
    /// The encoding library answered with a status other than success.
    Library {
        /// The status code as the library returned it.
        code: i32,
        /// The library's own text for that code.
        description: String,
    },
}

impl EncodingError {
    /// The human-readable text of the error.
    pub open spec fn text(&self) -> Seq<char> {
        match self {
            EncodingError::InvalidName => "event name holds a NUL byte"@,
            EncodingError::Library { description, .. } => description@,
        }
    }

    /// The human-readable text of the error, as an owned string.
    pub fn description(&self) -> (s: String)
        ensures
            s@ == self.text(),
    {
        match self {
            EncodingError::InvalidName => String::from_str("event name holds a NUL byte"),
            EncodingError::Library { description, .. } => description.clone(),
        }
    }
}

/// A call to the operating system did not do what was asked of it.
#[derive(Debug, Clone, Copy, PartialEq, Eq, Structural)]
pub enum OsError {
    /// The operating system refused the call; `errno` is its error number.
    Errno { errno: i32 },
    /// A read returned `returned`, which is neither the failure value nor the
    /// length of a whole reading. What it delivered is no reading.
    IncompleteRead { returned: isize },
}

/// An operation was asked for in a state that does not allow it.
///
/// This is a defect of the calling program, not a run-time condition: no call
/// is made to the operating system and no retry can help.
#[derive(Debug, Clone, Copy, PartialEq, Eq, Structural)]
pub enum UsageViolation {
    /// The session has not been opened yet.
    NotOpen,
    /// The session has been opened already.
    AlreadyOpen,
    /// The session has been closed.
    Closed,
}

} // verus!
