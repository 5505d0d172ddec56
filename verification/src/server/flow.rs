//! The server-role flow: exchange-level bookkeeping layered over the call
//! holder. The flow's phase is carried at the type level and always
//! matches the populated holder arm — the well-formedness of every phase
//! says so, so wrong-arm paths are proven dead.

use vstd::prelude::*;
use vstd::pervasive::unreached;

use crate::{CloseReason, H1Error};
use crate::message::{
    has_connection_close, has_expect_100, headers_view, method_matches, minor_of,
    spec_has_connection_close, spec_has_expect_100, Method, Request, Response,
};
use crate::server::call::continue_line;
use crate::tokenizer::request_tokenization;
use crate::util::{first_head_end, ArrayVec};

use super::holder::CallHolder;

verus! {

// Phase markers of the server-side exchange lifecycle.

/// A request head is awaited.
pub struct RecvRequest;

/// The request asked for a `100 Continue` interim response.
pub struct Send100;

/// The request body is being received.
pub struct RecvBody;

/// The response head is to be sent.
pub struct SendResponse;

/// The response body is to be sent.
pub struct SendBody;

/// The exchange is over; the connection may or may not be reused.
pub struct Cleanup;

/// The exchange-level bookkeeping every flow phase carries.
struct Inner<B> {
    call: CallHolder<B>,
    close_reason: ArrayVec<CloseReason, 4>,
    method: Option<Method>,
    expect_100: bool,
}

/// A flow of calls over one server-side exchange, in the phase named by
/// `State`.
pub struct Flow<State, B = ()> {
    inner: Inner<B>,
    ph: core::marker::PhantomData<State>,
}

impl<State, B> Flow<State, B> {
    /// The reasons recorded so far to close the connection afterwards.
    pub closed spec fn close_reasons(self) -> Seq<CloseReason> {
        self.inner.close_reason@
    }

    /// The parsed request's method, once a request was received.
    pub closed spec fn stored_method(self) -> Option<Method> {
        self.inner.method
    }

    /// The parsed request asked for a `100 Continue` interim response.
    pub closed spec fn expects_100(self) -> bool {
        self.inner.expect_100
    }

    fn wrap(inner: Inner<B>) -> (f: Flow<State, B>)
        ensures
            f.inner == inner,
    {
        Flow { inner, ph: core::marker::PhantomData }
    }

    /// Whether a reason was recorded to close the connection after this
    /// exchange completes.
    pub fn must_close(&self) -> (r: bool)
        ensures
            r == (self.close_reasons().len() != 0),
    {
        self.inner.close_reason.len() != 0
    }
}

// //////////////////////////////////////////////////////////// RECV REQUEST

impl Flow<RecvRequest> {
    /// The phase invariant: the holder is in the receive-request arm, the
    /// method is recorded exactly when the head is parsed, and nothing is
    /// bookkept before that.
    pub closed spec fn wf(self) -> bool {
        &&& self.inner.call is RecvRequest
        &&& self.inner.close_reason.wf()
        &&& (self.inner.method is Some <==> self.inner.call->RecvRequest_0.is_done())
        &&& (!self.inner.call->RecvRequest_0.is_done() ==> self.inner.close_reason@.len() == 0
            && !self.inner.expect_100)
        &&& self.inner.close_reason@.len() <= 1
    }

    /// A full request head was received and its data extracted.
    pub closed spec fn request_received(self) -> bool {
        self.inner.method is Some
    }

    /// Creates a new flow awaiting a request.
    pub fn new() -> (r: Result<Flow<RecvRequest>, H1Error>)
        ensures
            r matches Ok(f) && f.wf() && !f.request_received() && !f.expects_100()
                && f.close_reasons() == Seq::<CloseReason>::empty(),
    {
        let close_reason = ArrayVec::new();
        let call = match CallHolder::new() {
            Ok(c) => c,
            Err(e) => {
                return Err(e);
            },
        };
        let inner = Inner { call, close_reason, method: None, expect_100: false };
        Ok(Flow::wrap(inner))
    }

    /// Tries to read a request head from the accumulated input. `(0,
    /// None)` signals that more input is needed and nothing changed; a
    /// complete head hands back the parsed request and the byte count
    /// consumed, and records the method, the `100 Continue` expectation,
    /// and a close reason when the client asked for one.
    pub fn try_request(&mut self, input: &[u8]) -> (r: Result<(usize, Option<Request>), H1Error>)
        requires
            old(self).wf(),
        ensures
            final(self).wf(),
            ({
                let s = input@;
                if old(self).request_received() {
                    r matches Ok(p) && p.0 == 0 && p.1 is None && *final(self) == *old(self)
                } else {
                    match first_head_end(s) {
                        Option::None => r matches Ok(p) && p.0 == 0 && p.1 is None && *final(self)
                            == *old(self),
                        Option::Some(end) => match request_tokenization(s.subrange(0, end)) {
                            Result::Err(k) => r matches Err(e) && e == H1Error::ParseError(k)
                                && *final(self) == *old(self),
                            Result::Ok(Option::None) => r matches Ok(p) && p.0 == 0 && p.1 is None
                                && *final(self) == *old(self),
                            Result::Ok(Option::Some(t)) => if t.2 == 0 || t.2 == 1 {
                                r matches Ok(p) && p.0 == t.4 && (p.1 matches Some(rq)
                                    && method_matches(rq.method, t.0) && rq.path@ == t.1
                                    && minor_of(rq.version) == t.2 && headers_view(rq.headers@)
                                    == t.3) && final(self).request_received() && (final(self).stored_method() matches Some(m) && method_matches(m, t.0))
                                    && final(self).expects_100() == spec_has_expect_100(t.3)
                                    && final(self).close_reasons() == (
                                if spec_has_connection_close(t.3) {
                                    old(self).close_reasons().push(
                                        CloseReason::ClientConnectionClose,
                                    )
                                } else {
                                    old(self).close_reasons()
                                })
                            } else {
                                r matches Err(e) && e == H1Error::InvalidHttpVersion && *final(self)
                                    == *old(self)
                            },
                        },
                    }
                }
            }),
    {
        if self.inner.method.is_some() {
            return Ok((0, None));
        }
        let res = self.inner.call.as_recv_request_mut().try_request(input);
        match res {
            Err(e) => Err(e),
            Ok(None) => Ok((0, None)),
            Ok(Some((n, req))) => {
                let expect = has_expect_100(&req.headers);
                let close = has_connection_close(&req.headers);
                let name = req.method.name_vec();
                let stored = crate::message::method_from_bytes(name.as_slice());
                self.inner.method = Some(stored);
                self.inner.expect_100 = expect;
                if close {
                    self.inner.close_reason.push(CloseReason::ClientConnectionClose);
                }
                Ok((n, Some(req)))
            },
        }
    }

    /// Whether the request was fully received, so `proceed` will yield a
    /// successor phase.
    pub fn can_proceed(&self) -> (r: bool)
        ensures
            r == self.request_received(),
    {
        self.inner.method.is_some()
    }

    /// Proceeds to the next phase. `None` — not an error — while the
    /// request is still incomplete; guaranteed to yield a successor when
    /// `can_proceed` held. The branch is decided by the recorded
    /// bookkeeping alone: a declared `100 Continue` expectation wins,
    /// then the method's need for a request body, else the response is
    /// sent directly.
    pub fn proceed(self) -> (r: Option<RecvRequestResult>)
        requires
            self.wf(),
        ensures
            r is None <==> !self.request_received(),
            self.request_received() && self.expects_100() ==> (r matches Some(
                RecvRequestResult::Send100(f),
            ) && f.wf() && f.close_reasons() == self.close_reasons() && f.stored_method()
                == self.stored_method() && f.expects_100() == self.expects_100()),
            self.request_received() && !self.expects_100() && (self.stored_method() matches Some(m)
                && m.spec_need_request_body()) ==> (r matches Some(RecvRequestResult::RecvBody(f))
                && f.wf() && f.close_reasons() == self.close_reasons() && f.stored_method()
                == self.stored_method() && f.expects_100() == self.expects_100()),
            self.request_received() && !self.expects_100() && (self.stored_method() matches Some(m)
                && !m.spec_need_request_body()) ==> (r matches Some(
                RecvRequestResult::SendResponse(f),
            ) && f.wf() && f.close_reasons() == self.close_reasons() && f.stored_method()
                == self.stored_method() && f.expects_100() == self.expects_100()),
    {
        if !self.can_proceed() {
            return None;
        }
        let inner = self.inner;
        let call_body = match inner.call {
            CallHolder::RecvRequest(v) => v,
            _ => unreached(),
        };
        let method = match inner.method {
            Some(m) => m,
            None => unreached(),
        };
        let has_request_body = method.need_request_body();
        if inner.expect_100 {
            let call = CallHolder::Send100(call_body.into_send_100());
            let next = Inner {
                call,
                close_reason: inner.close_reason,
                method: Some(method),
                expect_100: inner.expect_100,
            };
            Some(RecvRequestResult::Send100(Flow::wrap(next)))
        } else if has_request_body {
            let call = CallHolder::RecvBody(call_body.into_body());
            let next = Inner {
                call,
                close_reason: inner.close_reason,
                method: Some(method),
                expect_100: inner.expect_100,
            };
            Some(RecvRequestResult::RecvBody(Flow::wrap(next)))
        } else {
            let call = CallHolder::SendResponse(call_body.into_send_response());
            let next = Inner {
                call,
                close_reason: inner.close_reason,
                method: Some(method),
                expect_100: inner.expect_100,
            };
            Some(RecvRequestResult::SendResponse(Flow::wrap(next)))
        }
    }
}

/// The possible phases after receiving a request.
pub enum RecvRequestResult {
    /// The client expects a `100 Continue` interim response.
    Send100(Flow<Send100>),
    /// A request body follows.
    RecvBody(Flow<RecvBody>),
    /// The client sent no body; the response comes next.
    SendResponse(Flow<SendResponse>),
}

// //////////////////////////////////////////////////////////////// SEND 100

impl Flow<Send100> {
    /// The phase invariant: the holder is in the interim-response arm and
    /// the request bookkeeping is present.
    pub closed spec fn wf(self) -> bool {
        &&& self.inner.call is Send100
        &&& self.inner.close_reason.wf()
        &&& self.inner.method is Some
    }

    /// The version the inbound request declared, which the interim
    /// response mirrors.
    pub closed spec fn call_version(self) -> crate::message::Version {
        self.inner.call->Send100_0.selected_version()
    }

    /// Sends the `100 Continue` interim response into the caller's
    /// buffer and proceeds to receiving the body. A buffer too small for
    /// even this shortest head is reported as overflow and changes
    /// nothing.
    pub fn accept(self, output: &mut Vec<u8>) -> (r: Result<(usize, Flow<RecvBody>), H1Error>)
        requires
            self.wf(),
        ensures
            final(output)@.len() == old(output)@.len(),
            r is Ok <==> continue_line(self.call_version()).len() <= old(output)@.len(),
            r matches Ok(p) ==> p.0 == continue_line(self.call_version()).len() && final(output)@
                == continue_line(self.call_version()) + old(output)@.skip(p.0 as int) && p.1.wf()
                && p.1.close_reasons() == self.close_reasons() && p.1.stored_method()
                == self.stored_method() && p.1.expects_100() == self.expects_100(),
            r matches Err(e) ==> e == H1Error::OutputOverflow && final(output)@ == old(output)@,
    {
        let inner = self.inner;
        let call_body = match inner.call {
            CallHolder::Send100(v) => v,
            _ => unreached(),
        };
        let n = match call_body.send_100(output) {
            Ok(n) => n,
            Err(e) => {
                return Err(e);
            },
        };
        let call = CallHolder::RecvBody(call_body.into_recv_body());
        let next = Inner {
            call,
            close_reason: inner.close_reason,
            method: inner.method,
            expect_100: inner.expect_100,
        };
        Ok((n, Flow::wrap(next)))
    }

    /// Rejects the `100 Continue` negotiation with a final response,
    /// which must belong to the client-error or server-error class: any
    /// other class would desynchronize the exchange and is refused with
    /// a dedicated error, leaving the caller to reconstruct the flow.
    pub fn reject<B>(self, response: Response<B>) -> (r: Result<Flow<SendResponse, B>, H1Error>)
        requires
            self.wf(),
        ensures
            r is Ok <==> 400 <= response.status < 600,
            r matches Err(e) ==> e == H1Error::BadReject100Status(response.status),
            r matches Ok(f) ==> f.wf() && f.close_reasons() == self.close_reasons()
                && f.stored_method() == self.stored_method() && f.expects_100()
                == self.expects_100() && f.rejection_status() == Some(response.status),
    {
        if !(response.is_client_error() || response.is_server_error()) {
            return Err(H1Error::BadReject100Status(response.status));
        }
        let inner = self.inner;
        let call_body = match inner.call {
            CallHolder::Send100(v) => v,
            _ => unreached(),
        };
        let call = CallHolder::WithBody(call_body.reject(response));
        let next = Inner {
            call,
            close_reason: inner.close_reason,
            method: inner.method,
            expect_100: inner.expect_100,
        };
        Ok(Flow::wrap(next))
    }
}

// /////////////////////////////////////////////////////////////// RECV BODY

impl Flow<RecvBody> {
    /// The phase invariant: the holder is in the receive-body arm.
    pub closed spec fn wf(self) -> bool {
        &&& self.inner.call is RecvBody
        &&& self.inner.close_reason.wf()
        &&& self.inner.method is Some
    }
}

// /////////////////////////////////////////////////////////// SEND RESPONSE

impl<B> Flow<SendResponse, B> {
    /// The phase invariant: the holder carries either a plain
    /// send-response call or a caller-supplied response with a body.
    pub closed spec fn wf(self) -> bool {
        &&& (self.inner.call is SendResponse || self.inner.call is WithBody)
        &&& self.inner.close_reason.wf()
        &&& self.inner.method is Some
    }

    /// The status of the response a `100 Continue` rejection supplied,
    /// when this phase was reached that way.
    pub closed spec fn rejection_status(self) -> Option<u16> {
        match self.inner.call {
            CallHolder::WithBody(c) => match c.stored_response() {
                Option::Some(resp) => Some(resp.status),
                Option::None => None,
            },
            _ => None,
        }
    }
}

} // verus!
