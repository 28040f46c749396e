//! How the system is taken to answer the library's requests, and what
//! follows for the library's operations.
//!
//! Nothing here runs. [`Namespace`] is the part of the file system that the
//! requests reach, and its functions say what the system answers to each
//! request; this is what the documentation of `mkfifo`, `unlink` and of FIFOs
//! promises, taken on trust. On top of it each operation of the library is
//! written out as the caller carries it out: look, decide, perform, report.
//! The proof functions at the end are about these, and hold as far as the
//! system behaves as the model says and nobody else changes the path in
//! between.

use crate::error::{CreationError, IoError, EEXIST};
use crate::named_pipe::{text_received, NamedPipePath};
use crate::request::{CreateRequest, RemoveRequest};
use std::path::PathBuf;
use vstd::prelude::*;
use vstd::utf8::*;

verus! {

/// The file system as far as the library's requests reach it.
pub struct Namespace {
    /// The paths at which an entry is.
    pub entries: Set<PathBuf>,
    /// The paths at which the system lets no entry be made and none be
    /// unlinked (a missing parent directory, missing rights), each with the
    /// error number that it answers to a request to make one.
    pub refusals: Map<PathBuf, i32>,
}

impl Namespace {
    /// Whether an entry is at `path`: what a look at the path finds.
    pub open spec fn holds(self, path: PathBuf) -> bool {
        self.entries.contains(path)
    }

    /// Whether the system lets an entry be made or unlinked at `path`.
    pub open spec fn admits(self, path: PathBuf) -> bool {
        !self.refusals.dom().contains(path)
    }

    /// "Already exists" is the answer for a path that holds an entry and for
    /// no other: no refusal borrows its error number.
    pub open spec fn coherent(self) -> bool {
        forall|path: PathBuf| #[trigger]
            self.refusals.dom().contains(path) ==> self.refusals[path] != EEXIST
    }

    /// The namespace after a [`CreateRequest`], and the answer to it: an
    /// error number, or nothing where the FIFO was made.
    pub open spec fn create(self, request: CreateRequest) -> (Namespace, Result<(), i32>) {
        if self.holds(request.path) {
            (self, Err(EEXIST))
        } else if !self.admits(request.path) {
            (self, Err(self.refusals[request.path]))
        } else {
            (Namespace { entries: self.entries.insert(request.path), ..self }, Ok(()))
        }
    }

    /// The namespace after a [`RemoveRequest`], and the answer to it.
    pub open spec fn remove(self, request: RemoveRequest) -> (Namespace, Result<(), IoError>) {
        if !self.holds(request.path) {
            (self, Err(IoError::NotFound))
        } else if !self.admits(request.path) {
            (self, Err(IoError::PermissionDenied))
        } else {
            (Namespace { entries: self.entries.remove(request.path), ..self }, Ok(()))
        }
    }

    /// What a read at `path` receives that meets a write of `data` at the
    /// same path: the bytes of that one session, all of them and no others;
    /// "not found" where no FIFO is at the path.
    pub open spec fn exchange(self, path: PathBuf, data: Seq<u8>) -> Result<Seq<u8>, IoError> {
        if self.holds(path) {
            Ok(data)
        } else {
            Err(IoError::NotFound)
        }
    }

    /// [`NamedPipePath::ensure_exists`] carried out: the namespace after it
    /// and the result that the caller gets.
    pub open spec fn ensure_exists(self, binding: NamedPipePath) -> (
        Namespace,
        Result<(), CreationError>,
    ) {
        match binding.creation_plan(self.holds(binding@)) {
            None => (self, Ok(())),
            Some(request) => {
                let (after, answer) = self.create(request);
                match answer {
                    Ok(()) => (after, Ok(())),
                    Err(errno) => (after, Err(CreationError::of_errno(errno))),
                }
            },
        }
    }

    /// [`NamedPipePath::delete`] carried out: the namespace after it and the
    /// result that the caller gets.
    pub open spec fn delete(self, binding: NamedPipePath) -> (Namespace, Result<(), IoError>) {
        match binding.removal_plan(self.holds(binding@)) {
            None => (self, Ok(())),
            Some(request) => self.remove(request),
        }
    }
}

/// Bytes come out as they went in: a read that meets a write of `data` on an
/// existing FIFO receives exactly `data`, whatever the bytes are.
pub proof fn lemma_bytes_round_trip(system: Namespace, path: PathBuf, data: Seq<u8>)
    requires
        system.holds(path),
    ensures
        system.exchange(path, data) == Ok::<Seq<u8>, IoError>(data),
{
}

/// Text comes out as it went in: where a writer sends the UTF-8 encoding of
/// `text`, as `write_str` does, and a reader decodes what it receives, as
/// `read_string` does, the reader gets `text`.
pub proof fn lemma_text_round_trip(system: Namespace, path: PathBuf, text: Seq<char>)
    requires
        system.holds(path),
    ensures
        text_received(system.exchange(path, encode_utf8(text))) == Ok::<Seq<char>, IoError>(text),
{
    encode_utf8_valid_utf8(text);
    encode_utf8_decode_utf8(text);
}

/// Ensuring twice is as good as ensuring once: where the system lets a FIFO
/// be made at the path, the first call leaves an entry there, and the second
/// call finds it, asks nothing of the system and reports no error.
pub proof fn lemma_ensure_exists_twice(system: Namespace, binding: NamedPipePath)
    requires
        system.holds(binding@) || system.admits(binding@),
    ensures
        ({
            let (first, _) = system.ensure_exists(binding);
            let (second, result) = first.ensure_exists(binding);
            &&& first.holds(binding@)
            &&& second.holds(binding@)
            &&& second == first
            &&& result is Ok
        }),
{
}

/// An entry that was found is never reported as an error by the check
/// itself: ensuring at a path that holds an entry asks nothing of the system
/// and succeeds, also where the system would refuse to make an entry.
pub proof fn lemma_ensure_exists_present(system: Namespace, binding: NamedPipePath)
    requires
        system.holds(binding@),
    ensures
        system.ensure_exists(binding) == (system, Ok::<(), CreationError>(())),
{
}

/// A caller that is alone at a path never hears "already exists": the look
/// before the making keeps that answer away.
pub proof fn lemma_ensure_exists_alone(system: Namespace, binding: NamedPipePath)
    requires
        system.coherent(),
    ensures
        system.ensure_exists(binding).1 != Err::<(), CreationError>(CreationError::AlreadyExists),
{
}

/// Two callers that both found the path free and both ask for the FIFO: the
/// first request makes it, the second is answered with "already exists", and
/// the FIFO is there. So the caller that lost the race may take its error as
/// success.
pub proof fn lemma_creation_race(system: Namespace, ours: NamedPipePath, theirs: NamedPipePath)
    requires
        system.coherent(),
        ours@ == theirs@,
        !system.holds(ours@),
        system.admits(ours@),
    ensures
        ({
            let (between, winner) = system.create(theirs.creation_plan(false)->0);
            let (after, loser) = between.create(ours.creation_plan(false)->0);
            &&& winner is Ok
            &&& loser matches Err(errno) && CreationError::of_errno(errno)
                == CreationError::AlreadyExists
            &&& after.holds(ours@)
        }),
{
}

/// Whenever the making of a FIFO is answered with "already exists", an entry
/// is at the path.
pub proof fn lemma_already_exists_means_present(system: Namespace, request: CreateRequest)
    requires
        system.coherent(),
    ensures
        ({
            let (after, answer) = system.create(request);
            answer matches Err(errno) && CreationError::of_errno(errno)
                == CreationError::AlreadyExists ==> after.holds(request.path)
        }),
{
}

/// Deleting where nothing is succeeds and changes nothing.
pub proof fn lemma_delete_absent(system: Namespace, binding: NamedPipePath)
    requires
        !system.holds(binding@),
    ensures
        system.delete(binding) == (system, Ok::<(), IoError>(())),
{
}

/// Deleting an entry that the system lets go removes it: the call succeeds,
/// and a look at the path afterwards finds nothing.
pub proof fn lemma_delete_present(system: Namespace, binding: NamedPipePath)
    requires
        system.holds(binding@),
        system.admits(binding@),
    ensures
        ({
            let (after, result) = system.delete(binding);
            &&& result is Ok
            &&& !after.holds(binding@)
        }),
{
}

} // verus!
