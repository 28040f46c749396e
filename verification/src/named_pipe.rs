//! The binding of a FIFO to its path, and the readers and writers made from
//! it.

use crate::error::IoError;
use crate::host::{probe, text_from_utf8};
use crate::request::{CreateRequest, ReadRequest, RemoveRequest, WriteRequest};
use crate::util::{create_pipe, creation_of};
use std::path::PathBuf;
use vstd::prelude::*;
use vstd::string::StringSliceAdditionalSpecFns;
use vstd::utf8::*;

verus! {

/// The place of a named pipe in the file system.
///
/// A binding is a path and no more. It holds no descriptor, and nothing in it
/// says whether a FIFO is at the path: each operation that depends on that
/// looks, or fails if the FIFO is missing. Its view is the path.
#[derive(Clone)]
pub struct NamedPipePath {
    inner: PathBuf,
}

impl View for NamedPipePath {
    type V = PathBuf;

    closed spec fn view(&self) -> PathBuf {
        self.inner
    }
}

impl NamedPipePath {
    /// Binds to `path`. Nothing is looked up or made.
    pub fn new(path: PathBuf) -> (binding: Self)
        ensures
            binding@ == path,
    {
        Self { inner: path }
    }

    /// The path of the binding.
    pub fn location(&self) -> (path: &PathBuf)
        ensures
            *path == self@,
    {
        &self.inner
    }

    /// Looks whether an entry is at the path right now. Another process may
    /// make or remove the entry at any time, so two calls may differ.
    pub fn is_present(&self) -> (present: bool) {
        probe(&self.inner)
    }

    /// What [`NamedPipePath::creation_plan`] returns.
    pub open spec fn spec_creation_plan(&self, present: bool) -> Option<CreateRequest> {
        if present {
            None
        } else {
            Some(creation_of(self@, None))
        }
    }

    /// What is to be done so that a FIFO is at the path, given whether an
    /// entry was found there: nothing where one was found, else the making
    /// of a FIFO with the standard permissions.
    #[verifier::when_used_as_spec(spec_creation_plan)]
    pub fn creation_plan(&self, present: bool) -> (plan: Option<CreateRequest>)
        ensures
            plan == self.spec_creation_plan(present),
    {
        if present {
            None
        } else {
            Some(create_pipe(&self.inner, None))
        }
    }

    /// Looks whether an entry is at the path, and asks for a FIFO to be made
    /// if none is. `None` says that the entry is there and nothing is left
    /// to do.
    ///
    /// Looking and making are two steps. Where two callers take them at the
    /// same time for one path, the system may answer one of the requests with
    /// "already exists".
    pub fn ensure_exists(&self) -> (plan: Option<CreateRequest>)
        ensures
            plan == self.creation_plan(true) || plan == self.creation_plan(false),
    {
        let present = self.is_present();
        self.creation_plan(present)
    }

    /// What [`NamedPipePath::removal_plan`] returns.
    pub open spec fn spec_removal_plan(self, present: bool) -> Option<RemoveRequest> {
        if present {
            Some(RemoveRequest { path: self@ })
        } else {
            None
        }
    }

    /// What is to be done so that no entry is at the path, given whether one
    /// was found there: the unlinking of the entry where one was found, else
    /// nothing. The binding is used up.
    #[verifier::when_used_as_spec(spec_removal_plan)]
    pub fn removal_plan(self, present: bool) -> (plan: Option<RemoveRequest>)
        ensures
            plan == self.spec_removal_plan(present),
    {
        if present {
            Some(RemoveRequest { path: self.inner })
        } else {
            None
        }
    }

    /// Looks whether an entry is at the path, and asks for it to be unlinked
    /// if one is. `None` says that the path is free and nothing is left to
    /// do. The binding is used up.
    pub fn delete(self) -> (plan: Option<RemoveRequest>)
        ensures
            plan == self.removal_plan(true) || plan == self.removal_plan(false),
    {
        let present = self.is_present();
        self.removal_plan(present)
    }

    /// A reader for the FIFO at the path. The binding stays usable.
    pub fn open_read(&self) -> (reader: NamedPipeReader)
        ensures
            reader@ == self@,
    {
        NamedPipeReader::from_path(self)
    }

    /// A writer for the FIFO at the path. The binding stays usable.
    pub fn open_write(&self) -> (writer: NamedPipeWriter)
        ensures
            writer@ == self@,
    {
        NamedPipeWriter::from_path(self)
    }
}

/// What was read, by its view.
pub open spec fn bytes_view(received: Result<Vec<u8>, IoError>) -> Result<Seq<u8>, IoError> {
    match received {
        Ok(bytes) => Ok(bytes@),
        Err(e) => Err(e),
    }
}

/// The text of a read, by its view.
pub open spec fn text_view(text: Result<String, IoError>) -> Result<Seq<char>, IoError> {
    match text {
        Ok(s) => Ok(s@),
        Err(e) => Err(e),
    }
}

/// The text that a read brought: the characters that the bytes encode in
/// UTF-8, a decoding error where they encode none, and the error of the read
/// where it failed.
pub open spec fn text_received(received: Result<Seq<u8>, IoError>) -> Result<Seq<char>, IoError> {
    match received {
        Ok(bytes) => if valid_utf8(bytes) {
            Ok(decode_utf8(bytes))
        } else {
            Err(IoError::Decoding)
        },
        Err(e) => Err(e),
    }
}

/// The reading end of a FIFO.
///
/// A reader holds a duplicate of the binding it was made from and no
/// descriptor: each read opens the FIFO anew, so that it ends with the
/// session of one writer and the next read meets the next writer. Its view is
/// the path.
pub struct NamedPipeReader {
    path: NamedPipePath,
}

impl View for NamedPipeReader {
    type V = PathBuf;

    closed spec fn view(&self) -> PathBuf {
        self.path@
    }
}

impl NamedPipeReader {
    /// A reader at the path of `source`, which is left as it is.
    pub fn from_path(source: &NamedPipePath) -> (reader: Self)
        ensures
            reader@ == source@,
    {
        Self { path: NamedPipePath { inner: source.inner.clone() } }
    }

    /// As [`NamedPipePath::ensure_exists`], for the path of the reader.
    pub fn ensure_pipe_exists(&self) -> (plan: Option<CreateRequest>)
        ensures
            plan is None || plan == Some(creation_of(self@, None)),
    {
        self.path.ensure_exists()
    }

    /// Asks for all the bytes of one writer's session.
    pub fn read(&self) -> (request: ReadRequest)
        ensures
            request.path == self@,
    {
        ReadRequest { path: self.path.inner.clone() }
    }

    /// Turns what a [`ReadRequest`] brought into text. The bytes must be
    /// UTF-8, all of them; an error of the read is handed on as it is.
    pub fn read_string(&self, received: Result<Vec<u8>, IoError>) -> (text: Result<String, IoError>)
        ensures
            text_view(text) == text_received(bytes_view(received)),
    {
        match received {
            Ok(bytes) => match text_from_utf8(bytes) {
                Ok(s) => Ok(s),
                Err(_) => Err(IoError::Decoding),
            },
            Err(e) => Err(e),
        }
    }
}

/// The writing end of a FIFO.
///
/// A writer holds a duplicate of the binding it was made from and no
/// descriptor: each write opens the FIFO anew and closes it, which ends the
/// session for the reader. Its view is the path.
pub struct NamedPipeWriter {
    path: NamedPipePath,
}

impl View for NamedPipeWriter {
    type V = PathBuf;

    closed spec fn view(&self) -> PathBuf {
        self.path@
    }
}

impl NamedPipeWriter {
    /// A writer at the path of `source`, which is left as it is.
    pub fn from_path(source: &NamedPipePath) -> (writer: Self)
        ensures
            writer@ == source@,
    {
        Self { path: NamedPipePath { inner: source.inner.clone() } }
    }

    /// As [`NamedPipePath::ensure_exists`], for the path of the writer.
    pub fn ensure_pipe_exists(&self) -> (plan: Option<CreateRequest>)
        ensures
            plan is None || plan == Some(creation_of(self@, None)),
    {
        self.path.ensure_exists()
    }

    /// Asks for `data` to be written as one session: exactly these bytes,
    /// then the close.
    pub fn write<'a>(&self, data: &'a [u8]) -> (request: WriteRequest<'a>)
        ensures
            request.path == self@,
            request.data@ == data@,
    {
        WriteRequest { path: self.path.inner.clone(), data }
    }

    /// Asks for `data` to be written as one session, in UTF-8.
    pub fn write_str<'a>(&self, data: &'a str) -> (request: WriteRequest<'a>)
        ensures
            request.path == self@,
            request.data@ == encode_utf8(data@),
    {
        self.write(data.as_bytes())
    }
}

} // verus!
