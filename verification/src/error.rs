//! The errors of a transfer.

use std::io;
use std::str::Utf8Error;
use std::string::{FromUtf16Error, FromUtf8Error};
use vstd::prelude::*;
use x11rb::errors::ReplyError;

verus! {

/// Declares `std::str::Utf8Error`, which is carried through unread.
#[verifier::external_type_specification]
#[verifier::external_body]
pub struct ExUtf8Error(std::str::Utf8Error);

/// Declares `std::string::FromUtf8Error`, which is carried through unread.
#[verifier::external_type_specification]
#[verifier::external_body]
pub struct ExFromUtf8Error(std::string::FromUtf8Error);

/// Declares `std::string::FromUtf16Error`, which is carried through unread.
#[verifier::external_type_specification]
#[verifier::external_body]
pub struct ExFromUtf16Error(std::string::FromUtf16Error);

/// Declares `std::io::Error`, which is carried through unread.
#[verifier::external_type_specification]
#[verifier::external_body]
pub struct ExIoError(std::io::Error);

/// Declares `x11rb::errors::ReplyError`, which is carried through unread.
#[verifier::external_type_specification]
#[verifier::external_body]
pub struct ExReplyError(x11rb::errors::ReplyError);

/// What can be wrong with a list of URIs.
#[derive(Debug)]
#[non_exhaustive]
pub enum UriListParseError {
    EmptyData,
    InvalidUtf8(Utf8Error),
    HostnameSpecified(String),
    UnexpectedProtocol(String),
    UnresolvablePath(io::Error),
    Io(io::Error),
}

impl From<Utf8Error> for UriListParseError {
    fn from(error: Utf8Error) -> (converted: UriListParseError) {
        UriListParseError::InvalidUtf8(error)
    }
}

impl vstd::std_specs::convert::FromSpecImpl<Utf8Error> for UriListParseError {
    open spec fn obeys_from_spec() -> bool {
        true
    }

    open spec fn from_spec(error: Utf8Error) -> UriListParseError {
        UriListParseError::InvalidUtf8(error)
    }
}

impl From<io::Error> for UriListParseError {
    fn from(error: io::Error) -> (converted: UriListParseError) {
        UriListParseError::UnresolvablePath(error)
    }
}

impl vstd::std_specs::convert::FromSpecImpl<io::Error> for UriListParseError {
    open spec fn obeys_from_spec() -> bool {
        true
    }

    open spec fn from_spec(error: io::Error) -> UriListParseError {
        UriListParseError::UnresolvablePath(error)
    }
}

/// Why received data cannot be read as text.
#[derive(Debug)]
pub enum TextError {
    /// The data is of a type that is not text.
    WrongType,
    /// The data had to be UTF-8 and is not.
    InvalidUtf8(FromUtf8Error),
    /// The data is neither UTF-8 nor UTF-16.
    InvalidUtf16(FromUtf16Error),
}

/// Why a protocol step cannot be taken.
#[derive(Debug)]
pub enum X11Error {
    /// Something that the step needs is missing.
    UnexpectedNull(&'static str),
    /// A request that the step needs failed: the connection broke, or the X server refused it.
    Reply(ReplyError),
}

/// An error keeps what caused it: from the converted error the cause can be had back.
pub proof fn errors_keep_their_cause(utf8: Utf8Error, io: io::Error)
    ensures
        <UriListParseError as vstd::std_specs::convert::FromSpec<Utf8Error>>::obeys_from_spec(),
        <UriListParseError as vstd::std_specs::convert::FromSpec<Utf8Error>>::from_spec(utf8)
            == UriListParseError::InvalidUtf8(utf8),
        <UriListParseError as vstd::std_specs::convert::FromSpec<io::Error>>::obeys_from_spec(),
        <UriListParseError as vstd::std_specs::convert::FromSpec<io::Error>>::from_spec(io)
            == UriListParseError::UnresolvablePath(io),
{
}

} // verus!
