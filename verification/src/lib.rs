//! Allocation-conscious HTTP/1.0 and HTTP/1.1 message engine.
//!
//! The crate builds and parses request lines, status lines and headers
//! directly in caller-supplied fixed-size buffers, and sequences the legal
//! states of one HTTP exchange so that illegal operations (writing a body
//! before the headers are finished, parsing a response before a request was
//! sent) are rejected or made inexpressible.

pub mod call;
pub mod message;
pub mod server;
pub mod tokenizer;
pub mod util;

pub use call::{state, Call, CallState, Output, ParseResult, Status};
pub use message::{Method, Request, Response, Version};
pub use util::ArrayVec;

use vstd::prelude::*;

verus! {

/// Classification of a malformed message, mirroring the distinctions the
/// byte-level tokenizer makes.
#[derive(Debug, Clone, Copy, PartialEq, Eq, Structural)]
pub enum ParseErrorKind {
    /// Invalid byte in a header name.
    HeaderName,
    /// Invalid byte in a header value.
    HeaderValue,
    /// Invalid byte where a line ending was expected.
    NewLine,
    /// Invalid byte in the numeric status code.
    StatusCode,
    /// Invalid token (method, path, or reason phrase).
    Token,
    /// The message head holds more headers than can be recorded.
    TooManyHeaders,
    /// Invalid byte in the HTTP version.
    Version,
}

/// Every error the engine reports to its caller.
#[derive(Debug, Clone, Copy, PartialEq, Eq, Structural)]
pub enum H1Error {
    /// A write operation did not fit in the caller's buffer.
    OutputOverflow,
    /// Remote bytes violate the wire grammar.
    ParseError(ParseErrorKind),
    /// The remote side declared an HTTP version other than the one
    /// this exchange expects.
    InvalidHttpVersion,
    /// A 100-continue rejection was attempted with a status outside the
    /// client-error and server-error classes; the offending code is carried.
    BadReject100Status(u16),
}

impl From<ParseErrorKind> for H1Error {
    /// Wraps a tokenizer classification as the engine's parse error.
    fn from(value: ParseErrorKind) -> (r: H1Error) {
        H1Error::ParseError(value)
    }
}

impl vstd::std_specs::convert::FromSpecImpl<ParseErrorKind> for H1Error {
    open spec fn obeys_from_spec() -> bool {
        true
    }

    open spec fn from_spec(t: ParseErrorKind) -> H1Error {
        H1Error::ParseError(t)
    }
}

/// A reason, recorded while an exchange runs, that the connection must
/// close once the exchange completes.
#[derive(Debug, Clone, Copy, PartialEq, Eq, Structural)]
pub enum CloseReason {
    /// HTTP/1.0 closes by default.
    Http10,
    /// The client declared `Connection: close`.
    ClientConnectionClose,
    /// The server declared `Connection: close`.
    ServerConnectionClose,
    /// A protocol error forces the connection shut.
    ProtocolError,
}

} // verus!
