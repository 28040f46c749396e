//! What the library takes from the standard library on trust.
//!
//! A path is carried through the library and never looked into, so its type
//! is declared and left opaque. Each contract below is for one function of the
//! standard library, and is believed, not proved.

use std::path::PathBuf;
use std::string::FromUtf8Error;
use vstd::prelude::*;
use vstd::utf8::*;

verus! {

/// `std::path::PathBuf`, as a value that is handed on unread.
#[verifier::external_type_specification]
#[verifier::external_body]
pub struct ExPathBuf(std::path::PathBuf);

/// `std::string::FromUtf8Error`, the error of `String::from_utf8`.
#[verifier::external_type_specification]
#[verifier::external_body]
pub struct ExFromUtf8Error(std::string::FromUtf8Error);

/// `PathBuf::clone`: the duplicate is the same path as the original.
pub assume_specification[ <PathBuf as Clone>::clone ](path: &PathBuf) -> (copy: PathBuf)
    ensures
        copy == *path,
;

/// `Path::exists`: whether an entry is at the path right now. The answer
/// depends on the file system at the moment of the call, so nothing is
/// claimed of it; where the entry cannot be examined the answer is `false`.
#[verifier::external_body]
pub(crate) fn probe(path: &PathBuf) -> (present: bool) {
    path.exists()
}

/// `String::from_utf8`: succeeds exactly on well-formed UTF-8, and the text
/// is then the one that the bytes encode.
#[verifier::external_body]
pub(crate) fn text_from_utf8(bytes: Vec<u8>) -> (text: Result<String, FromUtf8Error>)
    ensures
        text is Ok <==> valid_utf8(bytes@),
        text matches Ok(s) ==> s@ == decode_utf8(bytes@),
{
    String::from_utf8(bytes)
}

} // verus!
