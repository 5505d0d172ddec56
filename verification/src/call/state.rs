//! The phase markers of the call engine. A `Call<Phase>` exposes only the
//! operations legal in its phase, so illegal protocol sequencing is a type
//! error, not a runtime check.

use vstd::prelude::*;

verus! {

// Client-role phases, in the order an exchange passes through them.

/// A fresh call: the protocol version is still to be chosen.
pub struct Prepare;

/// The version is chosen; the request line is still to be written.
pub struct SendLine;

/// The request line of a bodiless request is written; headers may follow.
pub struct SendHeaders;

/// The request line of a body-bearing request is written; headers may
/// follow.
pub struct SendHeadersWithBody;

/// The head is finished; the remote status line is awaited.
pub struct RecvStatus;

/// The status line is parsed; the response headers are awaited.
pub struct RecvHeaders;

// Server-role phases, in the order an exchange passes through them.

/// An inbound request head is awaited.
pub struct RecvRequest;

/// The parsed request asked for a `100 Continue` interim response.
pub struct Send100;

/// The request body is being received.
pub struct RecvBody;

/// The response head is to be written; no response was supplied yet.
pub struct SendResponse;

/// A caller-supplied response that carries a body is to be written.
pub struct WithBody;

/// A caller-supplied response without a body is to be written.
pub struct WithoutBody;

} // verus!
