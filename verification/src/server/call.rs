//! The server-role call engine: parses an inbound request head
//! incrementally, writes the `100 Continue` interim line, and carries a
//! caller-supplied rejection response toward serialization.

use vstd::prelude::*;

use crate::H1Error;
use crate::call::state::{RecvBody, RecvRequest, Send100, SendResponse, WithBody};
use crate::message::{
    headers_view, method_from_bytes, method_matches, minor_of, push_version, version_bytes, Request,
    Response, Version,
};
use crate::tokenizer::{request_tokenization, tokenize_request};
use crate::util::{find_head_end, first_head_end, write_range};

verus! {

/// The bytes following the version in a `100 Continue` interim response:
/// ` 100 Continue` and the two line terminators ending the head.
pub open spec fn continue_tail_bytes() -> Seq<u8> {
    seq![
        32u8,
        49u8,
        48u8,
        48u8,
        32u8,
        67u8,
        111u8,
        110u8,
        116u8,
        105u8,
        110u8,
        117u8,
        101u8,
        13u8,
        10u8,
        13u8,
        10u8,
    ]
}

/// The complete `100 Continue` interim response for version `v`.
pub open spec fn continue_line(v: Version) -> Seq<u8> {
    version_bytes(v) + continue_tail_bytes()
}

fn push_continue_tail(out: &mut Vec<u8>)
    ensures
        final(out)@ == old(out)@ + continue_tail_bytes(),
{
    out.push(32u8);
    out.push(49u8);
    out.push(48u8);
    out.push(48u8);
    out.push(32u8);
    out.push(67u8);
    out.push(111u8);
    out.push(110u8);
    out.push(116u8);
    out.push(105u8);
    out.push(110u8);
    out.push(117u8);
    out.push(101u8);
    out.push(13u8);
    out.push(10u8);
    out.push(13u8);
    out.push(10u8);
    assert(final(out)@ =~= old(out)@ + continue_tail_bytes());
}

/// One in-flight server-side call in some phase. It holds no buffer:
/// inbound bytes are handed in per attempt, outbound bytes are written
/// into a caller-supplied buffer per round.
pub struct Call<Phase, B = ()> {
    version: Version,
    done: bool,
    response: Option<Response<B>>,
    ph: core::marker::PhantomData<Phase>,
}

impl<Phase, B> Call<Phase, B> {
    /// The version the inbound request declared; meaningful once the
    /// request head is parsed.
    pub closed spec fn selected_version(self) -> Version {
        self.version
    }

    /// The request head was fully parsed.
    pub closed spec fn is_done(self) -> bool {
        self.done
    }

    /// The caller-supplied response carried toward serialization.
    pub closed spec fn stored_response(self) -> Option<Response<B>> {
        self.response
    }
}

impl Call<RecvRequest> {
    /// Starts a server-side call awaiting a request head.
    pub fn new() -> (c: Call<RecvRequest>)
        ensures
            !c.is_done(),
    {
        Call {
            version: Version::Http11,
            done: false,
            response: None,
            ph: core::marker::PhantomData,
        }
    }

    /// Feeds accumulated inbound bytes. Without a complete head the
    /// attempt yields `None`: the call is unchanged and nothing is
    /// consumed, so the caller retries with a superset of the bytes.
    /// With a complete head the outcome is decided by the tokenization of
    /// exactly that head; on success the parsed request and the consumed
    /// byte count come back and the call remembers the request's version.
    pub fn try_request(&mut self, input: &[u8]) -> (r: Result<Option<(usize, Request)>, H1Error>)
        ensures
            ({
                let s = input@;
                if old(self).is_done() {
                    r matches Ok(rr) && rr is None && *final(self) == *old(self)
                } else {
                    match first_head_end(s) {
                        Option::None => r matches Ok(rr) && rr is None && *final(self) == *old(self),
                        Option::Some(end) => match request_tokenization(s.subrange(0, end)) {
                            Result::Err(k) => r matches Err(e) && e == H1Error::ParseError(k)
                                && *final(self) == *old(self),
                            Result::Ok(Option::None) => r matches Ok(rr) && rr is None
                                && *final(self) == *old(self),
                            Result::Ok(Option::Some(t)) => if t.2 == 0 || t.2 == 1 {
                                r matches Ok(Some((n, rq))) && n == t.4 && method_matches(
                                    rq.method,
                                    t.0,
                                ) && rq.path@ == t.1 && minor_of(rq.version) == t.2 && headers_view(
                                    rq.headers@,
                                ) == t.3 && final(self).is_done() && final(self).selected_version()
                                    == rq.version
                            } else {
                                r matches Err(e) && e == H1Error::InvalidHttpVersion && *final(self)
                                    == *old(self)
                            },
                        },
                    }
                }
            }),
    {
        if self.done {
            return Ok(None);
        }
        match find_head_end(input) {
            None => Ok(None),
            Some(i) => {
                let ilen: usize = input.len();
                proof {
                    assert(i + 4 <= ilen);
                }
                let end = i + 4;
                match tokenize_request(input, end) {
                    Err(k) => Err(H1Error::ParseError(k)),
                    Ok(None) => Ok(None),
                    Ok(Some((m, p, v, hs, n))) => {
                        if v == 0 || v == 1 {
                            let version = if v == 0 {
                                Version::Http10
                            } else {
                                Version::Http11
                            };
                            let method = method_from_bytes(m.as_slice());
                            self.done = true;
                            self.version = version;
                            Ok(Some((n, Request { method, path: p, version, headers: hs })))
                        } else {
                            Err(H1Error::InvalidHttpVersion)
                        }
                    },
                }
            },
        }
    }

    /// Moves to the interim-response phase after a request that asked
    /// for `100 Continue`.
    pub fn into_send_100(self) -> (c: Call<Send100>)
        ensures
            c.selected_version() == self.selected_version(),
    {
        Call {
            version: self.version,
            done: self.done,
            response: None,
            ph: core::marker::PhantomData,
        }
    }

    /// Moves to receiving the request body.
    pub fn into_body(self) -> (c: Call<RecvBody>)
        ensures
            c.selected_version() == self.selected_version(),
    {
        Call {
            version: self.version,
            done: self.done,
            response: None,
            ph: core::marker::PhantomData,
        }
    }

    /// Moves straight to sending the response when no body is expected.
    pub fn into_send_response(self) -> (c: Call<SendResponse>)
        ensures
            c.selected_version() == self.selected_version(),
    {
        Call {
            version: self.version,
            done: self.done,
            response: None,
            ph: core::marker::PhantomData,
        }
    }
}

impl Call<Send100> {
    /// Writes the `100 Continue` interim response at the start of the
    /// caller's buffer, reporting overflow — and leaving the buffer
    /// untouched — when even that shortest head does not fit.
    pub fn send_100(&self, output: &mut Vec<u8>) -> (r: Result<usize, H1Error>)
        ensures
            final(output)@.len() == old(output)@.len(),
            r is Ok <==> continue_line(self.selected_version()).len() <= old(output)@.len(),
            r matches Ok(n) ==> n == continue_line(self.selected_version()).len() && final(output)@ == continue_line(self.selected_version()) + old(output)@.skip(n as int),
            r matches Err(e) ==> e == H1Error::OutputOverflow && final(output)@ == old(output)@,
    {
        let mut line: Vec<u8> = Vec::new();
        push_version(&mut line, self.version);
        push_continue_tail(&mut line);
        proof {
            assert(line@ =~= continue_line(self.selected_version()));
        }
        let n = line.len();
        if write_range(output, 0, &line) {
            proof {
                assert(final(output)@ =~= continue_line(self.selected_version()) + old(output)@.skip(n as int));
            }
            Ok(n)
        } else {
            Err(H1Error::OutputOverflow)
        }
    }

    /// Moves to receiving the request body once the interim response was
    /// handed to the transport.
    pub fn into_recv_body(self) -> (c: Call<RecvBody>)
        ensures
            c.selected_version() == self.selected_version(),
    {
        Call {
            version: self.version,
            done: self.done,
            response: None,
            ph: core::marker::PhantomData,
        }
    }

    /// Abandons the `100 Continue` negotiation, carrying the supplied
    /// final response toward serialization instead.
    pub fn reject<B>(self, response: Response<B>) -> (c: Call<WithBody, B>)
        ensures
            c.selected_version() == self.selected_version(),
            c.stored_response() == Some(response),
    {
        Call {
            version: self.version,
            done: self.done,
            response: Some(response),
            ph: core::marker::PhantomData,
        }
    }
}

} // verus!
