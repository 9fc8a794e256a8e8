//! Errors returned by application, storage, and portal operations.

use ashpd::Error as PortalError;
use ctrlc::Error as SignalError;
use egui_winit::winit::error::EventLoopError;
use ron::error::Error as RonError;
use ron::error::SpannedError;
use std::io::Error as IoError;
use std::string::FromUtf8Error;
use vstd::prelude::*;

verus! {

#[verifier::external_type_specification]
#[verifier::external_body]
pub struct ExEventLoopError(EventLoopError);

#[verifier::external_type_specification]
#[verifier::external_body]
pub struct ExSignalError(SignalError);

#[verifier::external_type_specification]
#[verifier::external_body]
pub struct ExSpannedError(SpannedError);

#[verifier::external_type_specification]
#[verifier::external_body]
pub struct ExRonError(RonError);

#[verifier::external_type_specification]
#[verifier::external_body]
pub struct ExFromUtf8Error(FromUtf8Error);

#[verifier::external_type_specification]
#[verifier::external_body]
pub struct ExIoError(IoError);

#[verifier::external_type_specification]
#[verifier::external_body]
pub struct ExPortalError(PortalError);

/// An error that can prevent an application, a storage operation, or a
/// desktop-portal request from completing.
#[derive(Debug)]
pub enum Error {
    /// The platform event loop stopped with an error.
    EventLoopFail(EventLoopError),
    /// The platform event loop could not be built.
    EventLoopBuildFail(EventLoopError),
    /// An internal channel was disconnected before a message could be sent.
    SendingOverChannel,
    /// The requested renderer was not enabled at compile time.
    RendererUnavailable(&'static str),
    /// The process Ctrl-C handler could not be installed.
    SetSigHandler(SignalError),
    /// Failed to parse a value from storage.
    StorageParsing(SpannedError),
    /// Failed to serialize a value to storage.
    StorageSerialization(RonError),
    /// Expected UTF-8 encoding but encountered invalid bytes.
    ExpectedUtf8(FromUtf8Error),
    /// An I/O error occurred while writing to storage.
    WriteFailure(IoError),
    /// An I/O error occurred while reading from disk.
    ReadFailure(IoError),
    /// An error of the XDG desktop portal.
    Portal(PortalError),
}

/// Writes a value with its `Display` implementation (`format!("{}", ..)`).
///
/// Nothing is claimed of the text: it is whatever the value's `Display`
/// implementation writes.
#[verifier::external_body]
fn display_text<T: std::fmt::Display + ?Sized>(value: &T) -> String {
    format!("{}", value)
}

/// The message of an error that has no source error.
pub open spec fn plain_message(e: Error) -> Option<Seq<char>> {
    match e {
        Error::SendingOverChannel => Some("could not send message over channel: channel disconnected"@),
        Error::RendererUnavailable(name) => Some("the "@ + name@ + " renderer is not enabled"@),
        _ => None,
    }
}

/// The text that an error's message starts with, before its source's
/// message.
pub open spec fn message_prefix(e: Error) -> Seq<char> {
    match e {
        Error::EventLoopFail(_) => "event loop failed: "@,
        Error::EventLoopBuildFail(_) => "could not build event loop: "@,
        Error::SetSigHandler(_) => "could not set ctrlc handler: "@,
        Error::StorageParsing(_) => "could not parse value from storage: "@,
        Error::StorageSerialization(_) => "could not serialize value to storage: "@,
        Error::ExpectedUtf8(_) => "invalid utf8: "@,
        Error::WriteFailure(_) => "could not perform write: "@,
        Error::ReadFailure(_) => "could not perform read: "@,
        Error::Portal(_) => "portal error: "@,
        _ => Seq::empty(),
    }
}

impl Error {
    /// The message of the error: a fixed text, or a description followed by
    /// the message of the error that caused it.
    pub fn to_string(&self) -> (r: String)
        ensures
            plain_message(*self) matches Some(m) ==> r@ == m,
            plain_message(*self) is None ==> message_prefix(*self).is_prefix_of(r@),
    {
        match self {
            Error::SendingOverChannel => "could not send message over channel: channel disconnected".to_owned(),
            Error::RendererUnavailable(name) => "the ".to_owned().concat(name).concat(" renderer is not enabled"),
            Error::EventLoopFail(e) => with_source("event loop failed: ", display_text(e)),
            Error::EventLoopBuildFail(e) => with_source("could not build event loop: ", display_text(e)),
            Error::SetSigHandler(e) => with_source("could not set ctrlc handler: ", display_text(e)),
            Error::StorageParsing(e) => with_source("could not parse value from storage: ", display_text(e)),
            Error::StorageSerialization(e) => with_source("could not serialize value to storage: ", display_text(e)),
            Error::ExpectedUtf8(e) => with_source("invalid utf8: ", display_text(e)),
            Error::WriteFailure(e) => with_source("could not perform write: ", display_text(e)),
            Error::ReadFailure(e) => with_source("could not perform read: ", display_text(e)),
            Error::Portal(e) => with_source("portal error: ", display_text(e)),
        }
    }
}

/// A description followed by the message of the error that caused it.
fn with_source(description: &str, source: String) -> (r: String)
    ensures
        r@ == description@ + source@,
        description@.is_prefix_of(r@),
{
    let r = description.to_owned().concat(source.as_str());
    assert(r@.subrange(0, description@.len() as int) =~= description@);
    r
}

} // verus!
