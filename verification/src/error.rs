//! Errors surfaced by the lifecycle layer.

use vstd::prelude::*;

verus! {

/// Every failure the lifecycle layer can report. Each is returned as an
/// explicit result value from the operation that detects it; nothing in this
/// layer panics or retries.
#[derive(Clone, Copy, Debug, PartialEq, Eq, Structural)]
pub enum Error {
    /// The path is not representable as NUL-free text.
    InvalidPath,
    /// The secondary-output name is not representable as NUL-free text.
    InvalidOutputName,
    /// The engine returned no reader for the requested index source
    /// (typically: file missing, unreadable, or malformed).
    IndexReaderOpenFailed,
    /// Reserved for the in-memory index-build path: the sequence buffer is
    /// not representable as NUL-free bytes.
    InvalidSequence,
}

/// The diagnostic text attached to each error kind.
pub open spec fn message_view(e: Error) -> Seq<char> {
    match e {
        Error::InvalidPath => "invalid path"@,
        Error::InvalidOutputName => "invalid output name"@,
        Error::IndexReaderOpenFailed => "failed to create index reader - file not found?"@,
        Error::InvalidSequence => "invalid sequence"@,
    }
}

impl Error {
    /// A short human-readable description of the error.
    pub fn message(&self) -> (m: &'static str)
        ensures
            m@ == message_view(*self),
    {
        match self {
            Error::InvalidPath => "invalid path",
            Error::InvalidOutputName => "invalid output name",
            Error::IndexReaderOpenFailed => "failed to create index reader - file not found?",
            Error::InvalidSequence => "invalid sequence",
        }
    }
}

} // verus!
