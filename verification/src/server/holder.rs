//! A closed variant set over the reachable server-side call phases, so a
//! single value of uniform type can stand for "a call in some phase".
//! Exactly one arm is populated at a time; the flow's own phase type
//! guarantees which, so reaching for the wrong arm is a proven-dead path,
//! not a runtime error.

use vstd::prelude::*;
use vstd::pervasive::unreached;

use crate::H1Error;
use crate::call::state::{RecvBody, RecvRequest, Send100, SendResponse, WithBody, WithoutBody};
use super::call::Call;

verus! {

/// One arm per reachable server-side call phase, plus `Empty` as the
/// hole left while a transition rebuilds the value.
pub enum CallHolder<B = ()> {
    RecvRequest(Call<RecvRequest>),
    Send100(Call<Send100>),
    RecvBody(Call<RecvBody>),
    SendResponse(Call<SendResponse>),
    WithoutBody(Call<WithoutBody, B>),
    WithBody(Call<WithBody, B>),
    Empty,
}

impl CallHolder<()> {
    /// Starts a holder in the phase awaiting a request head.
    pub fn new() -> (r: Result<CallHolder<()>, H1Error>)
        ensures
            r matches Ok(h) && h is RecvRequest && !h->RecvRequest_0.is_done(),
    {
        Ok(CallHolder::RecvRequest(Call::new()))
    }

    /// The populated receive-request arm. The flow's phase discipline
    /// guarantees the arm is populated before this is invoked.
    pub fn as_recv_request_mut(&mut self) -> (r: &mut Call<RecvRequest>)
        requires
            *old(self) is RecvRequest,
        ensures
            *r == (*old(self))->RecvRequest_0,
            *final(self) == CallHolder::<()>::RecvRequest(*final(r)),
    {
        match self {
            CallHolder::RecvRequest(v) => v,
            _ => unreached(),
        }
    }
}

} // verus!
