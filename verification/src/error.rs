//! The errors that acquisition and media jobs report.

use vstd::prelude::*;

verus! {

/// What went wrong.
#[derive(Clone, Copy, Debug, PartialEq, Eq, Structural)]
pub enum ErrorKind {
    /// A file or directory could not be created, written, renamed or read.
    Io,
    /// The destination directory cannot be written to.
    Permission,
    /// The archive could not be fetched.
    Network,
    /// The archive is empty or cannot be unpacked.
    CorruptArchive,
    /// No binary was found among the unpacked files.
    BinaryNotFound,
    /// The binary is there but did not answer the version query.
    VersionCheckFailed,
    /// The external process could not be started.
    Spawn,
    /// The external process ended without success.
    ProcessExecution,
}

/// An error with its kind, a text for the user, and the exit code of the
/// external process where one is known.
#[derive(Clone, Debug, PartialEq, Eq)]
pub struct MediaError {
    pub kind: ErrorKind,
    pub message: String,
    pub exit_code: Option<i32>,
}

} // verus!
