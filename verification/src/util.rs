//! Making and removing a FIFO, without a binding.

use crate::mode::PipeMode;
use crate::request::{CreateRequest, RemoveRequest};
use std::path::PathBuf;
use vstd::prelude::*;

verus! {

/// The request that [`create_pipe`] makes: a FIFO at `path`, with the
/// permissions `mode` or, where none is given, the standard ones.
pub open spec fn creation_of(path: PathBuf, mode: Option<PipeMode>) -> CreateRequest {
    CreateRequest {
        path,
        mode: match mode {
            Some(m) => m,
            None => PipeMode::standard(),
        },
    }
}

/// Asks for a FIFO at `path`. Without a `mode` the FIFO gets the standard
/// permissions: read and write for the owner, read for group and others.
pub fn create_pipe(path: &PathBuf, mode: Option<PipeMode>) -> (request: CreateRequest)
    ensures
        request == creation_of(*path, mode),
        mode is None ==> request.mode@ == crate::mode::DEFAULT_MODE_BITS,
{
    broadcast use PipeMode::lemma_standard_bits;

    let mode = match mode {
        Some(m) => m,
        None => PipeMode::default(),
    };
    CreateRequest { path: path.clone(), mode }
}

/// Asks for the entry at `path` to be unlinked.
pub fn remove_pipe(path: &PathBuf) -> (request: RemoveRequest)
    ensures
        request.path == *path,
{
    RemoveRequest { path: path.clone() }
}

} // verus!
