//! Native status codes and the typed errors they become.
use vstd::prelude::*;

verus! {

/// The engine finished the call normally.
pub const ARCHIVE_OK: i32 = 0;

/// The end of the archive, or of an entry's data, was reached.
pub const ARCHIVE_EOF: i32 = 1;

/// The call may succeed if it is made again.
pub const ARCHIVE_RETRY: i32 = -10;

/// The call succeeded, with a diagnostic worth reporting.
pub const ARCHIVE_WARN: i32 = -20;

/// The current operation failed; the handle may still be used.
pub const ARCHIVE_FAILED: i32 = -25;

/// The handle is unusable from now on.
pub const ARCHIVE_FATAL: i32 = -30;

/// The error number the engine records when a file does not exist.
pub const ERRNO_NOT_FOUND: i32 = 2;

/// The error number the engine records when no registered format
/// recognised the input (`EILSEQ`).
pub const ERRNO_FILE_FORMAT: i32 = 84;

/// The semantic kind of a native status code.
#[derive(Clone, Copy, Debug, PartialEq, Eq, Structural)]
pub enum Status {
    Success,
    RecoverableWarning,
    OperationFailed,
    FatalHandleError,
    EndOfArchive,
}

/// Everything that can go wrong when reading an archive.
///
/// Variants that come from the engine carry its status code and its
/// diagnostic text verbatim.
#[derive(Debug, PartialEq, Eq)]
pub enum Error {
    /// The path cannot be handed to the engine; it carries the path.
    PathEncoding(Vec<u8>),
    /// The file to open does not exist.
    NotFound { code: i32, message: String },
    /// The operation was aborted; the handle may still be used.
    OperationFailed { code: i32, message: String },
    /// The handle is unusable and has been closed.
    FatalHandle { code: i32, message: String },
    /// The handle was closed before the operation.
    HandleClosed,
    /// The entry was read after the enumeration moved past it.
    StaleEntry,
}

/// What a successful native call means for the caller.
#[derive(Debug, PartialEq, Eq)]
pub enum Progress {
    /// The call did what was asked.
    Done,
    /// The call did what was asked, with a diagnostic.
    Warning { code: i32, message: String },
    /// There is nothing more to read.
    EndOfArchive,
}

/// The kind of every status value: the mapping is total, and codes the
/// engine does not document count as a failed operation.
pub open spec fn status_kind(code: int) -> Status {
    if code == ARCHIVE_OK as int {
        Status::Success
    } else if code == ARCHIVE_EOF as int {
        Status::EndOfArchive
    } else if code == ARCHIVE_WARN as int {
        Status::RecoverableWarning
    } else if code == ARCHIVE_FATAL as int {
        Status::FatalHandleError
    } else {
        Status::OperationFailed
    }
}

/// The result that a status code and its diagnostic text translate to.
pub open spec fn translated(code: i32, message: String) -> Result<Progress, Error> {
    match status_kind(code as int) {
        Status::Success => Ok(Progress::Done),
        Status::RecoverableWarning => Ok(Progress::Warning { code, message }),
        Status::EndOfArchive => Ok(Progress::EndOfArchive),
        Status::OperationFailed => Err(Error::OperationFailed { code, message }),
        Status::FatalHandleError => Err(Error::FatalHandle { code, message }),
    }
}

/// The error that a failed attempt to open a file translates to.
///
/// A missing file is `NotFound`. Input that no format recognised is a failed
/// operation, whatever the status: the handle is released either way. Every
/// other failure keeps the kind of its status.
pub open spec fn translated_open_failure(code: i32, errno: i32, message: String) -> Error {
    if errno == ERRNO_NOT_FOUND {
        Error::NotFound { code, message }
    } else if errno == ERRNO_FILE_FORMAT {
        Error::OperationFailed { code, message }
    } else if status_kind(code as int) == Status::FatalHandleError {
        Error::FatalHandle { code, message }
    } else {
        Error::OperationFailed { code, message }
    }
}

/// Classifies a native status code.
pub fn classify(code: i32) -> (r: Status)
    ensures
        r == status_kind(code as int),
{
    if code == ARCHIVE_OK {
        Status::Success
    } else if code == ARCHIVE_EOF {
        Status::EndOfArchive
    } else if code == ARCHIVE_WARN {
        Status::RecoverableWarning
    } else if code == ARCHIVE_FATAL {
        Status::FatalHandleError
    } else {
        Status::OperationFailed
    }
}

/// Translates a native status code and its diagnostic text.
pub fn translate(code: i32, message: String) -> (r: Result<Progress, Error>)
    ensures
        r == translated(code, message),
{
    match classify(code) {
        Status::Success => Ok(Progress::Done),
        Status::RecoverableWarning => Ok(Progress::Warning { code, message }),
        Status::EndOfArchive => Ok(Progress::EndOfArchive),
        Status::OperationFailed => Err(Error::OperationFailed { code, message }),
        Status::FatalHandleError => Err(Error::FatalHandle { code, message }),
    }
}

/// Translates the failure of the call that opens a file for reading, given
/// the error number the engine recorded for it.
pub fn translate_open_failure(code: i32, errno: i32, message: String) -> (r: Error)
    ensures
        r == translated_open_failure(code, errno, message),
{
    if errno == ERRNO_NOT_FOUND {
        Error::NotFound { code, message }
    } else if errno == ERRNO_FILE_FORMAT {
        Error::OperationFailed { code, message }
    } else if classify(code) == Status::FatalHandleError {
        Error::FatalHandle { code, message }
    } else {
        Error::OperationFailed { code, message }
    }
}

} // verus!
