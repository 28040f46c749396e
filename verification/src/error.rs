//! The errors that operations on a named pipe report.

use vstd::prelude::*;

verus! {

/// The error number with which the system refuses to make an entry where one
/// already is, as Linux, macOS and the BSDs number it.
pub const EEXIST: i32 = 17;

/// Why a FIFO could not be made.
#[derive(Clone, Copy, Debug, PartialEq, Eq, Structural)]
pub enum CreationError {
    /// An entry is already at the path. After a check that found the path
    /// free this means that somebody else made one in between; the entry is
    /// there, so callers may take it as success.
    AlreadyExists,
    /// The system refused for another reason, such as a missing parent
    /// directory or missing rights; the error number is kept.
    Os(i32),
}

impl CreationError {
    /// The error that an error number of the system stands for.
    pub open spec fn of_errno(errno: i32) -> CreationError {
        if errno == EEXIST {
            CreationError::AlreadyExists
        } else {
            CreationError::Os(errno)
        }
    }

    /// Classifies the error number with which the system refused to make a
    /// FIFO.
    pub fn from_errno(errno: i32) -> (error: CreationError)
        ensures
            error == Self::of_errno(errno),
    {
        if errno == EEXIST {
            CreationError::AlreadyExists
        } else {
            CreationError::Os(errno)
        }
    }
}

/// Why opening, reading, writing or unlinking a FIFO failed.
#[derive(Clone, Copy, Debug, PartialEq, Eq, Structural)]
pub enum IoError {
    /// Nothing is at the path: the FIFO was never made, or was removed.
    NotFound,
    /// The caller lacks the rights for the operation.
    PermissionDenied,
    /// A signal interrupted the operation. It is reported, not retried.
    Interrupted,
    /// The bytes that were read are not UTF-8 text. Only the decoding of a
    /// read reports this.
    Decoding,
    /// Any other failure of the system.
    Other,
}

} // verus!
