//! The requests that the library makes of the system.
//!
//! A request is plain data. It says what is to be done at which path; it is
//! performed by the caller, who hands the answer back where the operation
//! has something to compute from it.

use crate::mode::PipeMode;
use std::path::PathBuf;
use vstd::prelude::*;

verus! {

/// Make a FIFO special file at `path` with the permissions `mode`.
///
/// The system refuses with "already exists" if any entry is at the path, and
/// with another error if the parent directory does not admit a new entry.
#[derive(Debug)]
pub struct CreateRequest {
    pub path: PathBuf,
    pub mode: PipeMode,
}

/// Unlink the entry at `path`.
///
/// The system refuses if nothing is at the path or if the caller may not
/// remove it.
#[derive(Debug)]
pub struct RemoveRequest {
    pub path: PathBuf,
}

/// Open `path` for reading, read until end of stream, and close.
///
/// The open suspends the caller until some writer has opened the FIFO. End of
/// stream comes when every writer has closed its descriptor. The descriptor of
/// the read is closed before the answer is given.
#[derive(Debug)]
pub struct ReadRequest {
    pub path: PathBuf,
}

/// Open `path` for writing, write all of `data`, and close.
///
/// The open never makes the entry: it fails with "not found" where no FIFO
/// is. It suspends the caller until some reader has opened the FIFO. The close
/// is what the reader sees as end of stream.
#[derive(Debug)]
pub struct WriteRequest<'a> {
    pub path: PathBuf,
    pub data: &'a [u8],
}

} // verus!
