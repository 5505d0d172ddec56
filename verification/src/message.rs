//! The message-level data model: protocol versions, request methods, parsed
//! requests, responses under construction, and the header queries the
//! server flow asks of a parsed header set.

use vstd::prelude::*;
use crate::util::{bytes_eq, bytes_eq_nocase, eq_nocase, push_slice};

verus! {

// ------------------------------------------------------------------ version

/// The protocol version of one exchange.
#[derive(Debug, Clone, Copy, PartialEq, Eq, Structural)]
pub enum Version {
    Http10,
    Http11,
}

/// The wire spelling of a version: `HTTP/1.0` or `HTTP/1.1`.
pub open spec fn version_bytes(v: Version) -> Seq<u8> {
    match v {
        Version::Http10 => seq![72u8, 84u8, 84u8, 80u8, 47u8, 49u8, 46u8, 48u8],
        Version::Http11 => seq![72u8, 84u8, 84u8, 80u8, 47u8, 49u8, 46u8, 49u8],
    }
}

/// The minor version digit a tokenizer reports for `v`.
pub open spec fn minor_of(v: Version) -> int {
    match v {
        Version::Http10 => 0,
        Version::Http11 => 1,
    }
}

pub fn push_version(out: &mut Vec<u8>, v: Version)
    ensures
        final(out)@ == old(out)@ + version_bytes(v),
{
    out.push(72u8);
    out.push(84u8);
    out.push(84u8);
    out.push(80u8);
    out.push(47u8);
    out.push(49u8);
    out.push(46u8);
    match v {
        Version::Http10 => out.push(48u8),
        Version::Http11 => out.push(49u8),
    }
    assert(final(out)@ =~= old(out)@ + version_bytes(v));
}

// ------------------------------------------------------------------- method

/// A request method. Methods outside the registered set are carried
/// verbatim in `Other`.
#[derive(Debug, Clone, PartialEq, Eq)]
pub enum Method {
    Get,
    Head,
    Post,
    Put,
    Delete,
    Options,
    Trace,
    Patch,
    Connect,
    Other(Vec<u8>),
}

/// The wire spelling of a method.
pub open spec fn method_name(m: Method) -> Seq<u8> {
    match m {
        Method::Get => seq![71u8, 69u8, 84u8],
        Method::Head => seq![72u8, 69u8, 65u8, 68u8],
        Method::Post => seq![80u8, 79u8, 83u8, 84u8],
        Method::Put => seq![80u8, 85u8, 84u8],
        Method::Delete => seq![68u8, 69u8, 76u8, 69u8, 84u8, 69u8],
        Method::Options => seq![79u8, 80u8, 84u8, 73u8, 79u8, 78u8, 83u8],
        Method::Trace => seq![84u8, 82u8, 65u8, 67u8, 69u8],
        Method::Patch => seq![80u8, 65u8, 84u8, 67u8, 72u8],
        Method::Connect => seq![67u8, 79u8, 78u8, 78u8, 69u8, 67u8, 84u8],
        Method::Other(v) => v@,
    }
}

/// `b` is the spelling of one of the registered methods.
pub open spec fn is_registered_method(b: Seq<u8>) -> bool {
    ||| b == method_name(Method::Get)
    ||| b == method_name(Method::Head)
    ||| b == method_name(Method::Post)
    ||| b == method_name(Method::Put)
    ||| b == method_name(Method::Delete)
    ||| b == method_name(Method::Options)
    ||| b == method_name(Method::Trace)
    ||| b == method_name(Method::Patch)
    ||| b == method_name(Method::Connect)
}

/// `m` is the `Method` value that spells `b`: the registered variant when
/// `b` is registered, `Other` carrying `b` itself when it is not.
pub open spec fn method_matches(m: Method, b: Seq<u8>) -> bool {
    method_name(m) == b && ((m is Other) <==> !is_registered_method(b))
}

impl Method {
    /// Writes the method's wire spelling.
    pub fn push_name(&self, out: &mut Vec<u8>)
        ensures
            final(out)@ == old(out)@ + method_name(*self),
    {
        match self {
            Method::Get => push_slice_lit3(out, 71, 69, 84),
            Method::Head => push_slice_lit4(out, 72, 69, 65, 68),
            Method::Post => push_slice_lit4(out, 80, 79, 83, 84),
            Method::Put => push_slice_lit3(out, 80, 85, 84),
            Method::Delete => {
                push_slice_lit3(out, 68, 69, 76);
                push_slice_lit3(out, 69, 84, 69);
            },
            Method::Options => {
                push_slice_lit4(out, 79, 80, 84, 73);
                push_slice_lit3(out, 79, 78, 83);
            },
            Method::Trace => {
                push_slice_lit4(out, 84, 82, 65, 67);
                out.push(69u8);
            },
            Method::Patch => {
                push_slice_lit4(out, 80, 65, 84, 67);
                out.push(72u8);
            },
            Method::Connect => {
                push_slice_lit4(out, 67, 79, 78, 78);
                push_slice_lit3(out, 69, 67, 84);
            },
            Method::Other(v) => push_slice(out, v.as_slice()),
        }
        assert(final(out)@ =~= old(out)@ + method_name(*self));
    }

    /// The method's wire spelling as a fresh byte vector.
    pub fn name_vec(&self) -> (r: Vec<u8>)
        ensures
            r@ == method_name(*self),
    {
        let mut v: Vec<u8> = Vec::new();
        self.push_name(&mut v);
        v
    }

    /// Whether a request with this method carries a request body.
    pub open spec fn spec_need_request_body(self) -> bool {
        self is Post || self is Put || self is Patch
    }

    /// Whether a request with this method carries a request body.
    pub fn need_request_body(&self) -> (r: bool)
        ensures
            r == self.spec_need_request_body(),
    {
        match self {
            Method::Post | Method::Put | Method::Patch => true,
            _ => false,
        }
    }
}

fn push_slice_lit3(out: &mut Vec<u8>, a: u8, b: u8, c: u8)
    ensures
        final(out)@ == old(out)@ + seq![a, b, c],
{
    out.push(a);
    out.push(b);
    out.push(c);
    assert(final(out)@ =~= old(out)@ + seq![a, b, c]);
}

fn push_slice_lit4(out: &mut Vec<u8>, a: u8, b: u8, c: u8, d: u8)
    ensures
        final(out)@ == old(out)@ + seq![a, b, c, d],
{
    out.push(a);
    out.push(b);
    out.push(c);
    out.push(d);
    assert(final(out)@ =~= old(out)@ + seq![a, b, c, d]);
}

/// Reads a method from its wire spelling.
pub fn method_from_bytes(b: &[u8]) -> (m: Method)
    ensures
        method_matches(m, b@),
{
    if bytes_eq(b, Method::Get.name_vec().as_slice()) {
        Method::Get
    } else if bytes_eq(b, Method::Head.name_vec().as_slice()) {
        Method::Head
    } else if bytes_eq(b, Method::Post.name_vec().as_slice()) {
        Method::Post
    } else if bytes_eq(b, Method::Put.name_vec().as_slice()) {
        Method::Put
    } else if bytes_eq(b, Method::Delete.name_vec().as_slice()) {
        Method::Delete
    } else if bytes_eq(b, Method::Options.name_vec().as_slice()) {
        Method::Options
    } else if bytes_eq(b, Method::Trace.name_vec().as_slice()) {
        Method::Trace
    } else if bytes_eq(b, Method::Patch.name_vec().as_slice()) {
        Method::Patch
    } else if bytes_eq(b, Method::Connect.name_vec().as_slice()) {
        Method::Connect
    } else {
        let mut v: Vec<u8> = Vec::new();
        push_slice(&mut v, b);
        Method::Other(v)
    }
}

// ------------------------------------------------------------------ headers

/// The mathematical shape of a parsed header set: name and value byte
/// strings, in wire order.
pub open spec fn headers_view(hs: Seq<(Vec<u8>, Vec<u8>)>) -> Seq<(Seq<u8>, Seq<u8>)> {
    hs.map_values(|p: (Vec<u8>, Vec<u8>)| (p.0@, p.1@))
}

/// The header set holds an entry whose name and value equal the given
/// ones up to ASCII case.
pub open spec fn has_header(hs: Seq<(Seq<u8>, Seq<u8>)>, name: Seq<u8>, value: Seq<u8>) -> bool {
    exists|i: int|
        0 <= i < hs.len() && eq_nocase(#[trigger] hs[i].0, name) && eq_nocase(hs[i].1, value)
}

/// Looks for a header with the given name and value, both compared
/// ignoring ASCII case.
pub fn headers_has(hs: &Vec<(Vec<u8>, Vec<u8>)>, name: &[u8], value: &[u8]) -> (r: bool)
    ensures
        r == has_header(headers_view(hs@), name@, value@),
{
    let mut i: usize = 0;
    while i < hs.len()
        invariant
            i <= hs@.len(),
            forall|j: int|
                0 <= j < i ==> !(eq_nocase(#[trigger] headers_view(hs@)[j].0, name@) && eq_nocase(
                    headers_view(hs@)[j].1,
                    value@,
                )),
        decreases hs.len() - i,
    {
        let hit = bytes_eq_nocase(hs[i].0.as_slice(), name) && bytes_eq_nocase(
            hs[i].1.as_slice(),
            value,
        );
        proof {
            assert(headers_view(hs@)[i as int] == (hs@[i as int].0@, hs@[i as int].1@));
        }
        if hit {
            proof {
                let ghost k: int = i as int;
                assert(eq_nocase(headers_view(hs@)[k].0, name@));
                assert(eq_nocase(headers_view(hs@)[k].1, value@));
            }
            return true;
        }
        i = i + 1;
    }
    false
}

/// The spelling of the `Expect` header name.
pub open spec fn expect_bytes() -> Seq<u8> {
    seq![101u8, 120u8, 112u8, 101u8, 99u8, 116u8]
}

/// The spelling of the `100-continue` expectation value.
pub open spec fn continue_100_bytes() -> Seq<u8> {
    seq![49u8, 48u8, 48u8, 45u8, 99u8, 111u8, 110u8, 116u8, 105u8, 110u8, 117u8, 101u8]
}

/// The spelling of the `Connection` header name.
pub open spec fn connection_bytes() -> Seq<u8> {
    seq![99u8, 111u8, 110u8, 110u8, 101u8, 99u8, 116u8, 105u8, 111u8, 110u8]
}

/// The spelling of the `close` connection option.
pub open spec fn close_bytes() -> Seq<u8> {
    seq![99u8, 108u8, 111u8, 115u8, 101u8]
}

/// The header set asks for a `100 Continue` interim response.
pub open spec fn spec_has_expect_100(hs: Seq<(Seq<u8>, Seq<u8>)>) -> bool {
    has_header(hs, expect_bytes(), continue_100_bytes())
}

/// The header set asks for the connection to close after this exchange.
pub open spec fn spec_has_connection_close(hs: Seq<(Seq<u8>, Seq<u8>)>) -> bool {
    has_header(hs, connection_bytes(), close_bytes())
}

fn name_expect() -> (r: Vec<u8>)
    ensures
        r@ == expect_bytes(),
{
    let mut v: Vec<u8> = Vec::new();
    push_slice_lit3(&mut v, 101, 120, 112);
    push_slice_lit3(&mut v, 101, 99, 116);
    assert(v@ =~= expect_bytes());
    v
}

fn value_continue_100() -> (r: Vec<u8>)
    ensures
        r@ == continue_100_bytes(),
{
    let mut v: Vec<u8> = Vec::new();
    push_slice_lit4(&mut v, 49, 48, 48, 45);
    push_slice_lit4(&mut v, 99, 111, 110, 116);
    push_slice_lit4(&mut v, 105, 110, 117, 101);
    assert(v@ =~= continue_100_bytes());
    v
}

fn name_connection() -> (r: Vec<u8>)
    ensures
        r@ == connection_bytes(),
{
    let mut v: Vec<u8> = Vec::new();
    push_slice_lit4(&mut v, 99, 111, 110, 110);
    push_slice_lit3(&mut v, 101, 99, 116);
    push_slice_lit3(&mut v, 105, 111, 110);
    assert(v@ =~= connection_bytes());
    v
}

fn value_close() -> (r: Vec<u8>)
    ensures
        r@ == close_bytes(),
{
    let mut v: Vec<u8> = Vec::new();
    push_slice_lit4(&mut v, 99, 108, 111, 115);
    v.push(101u8);
    assert(v@ =~= close_bytes());
    v
}

/// Whether the set declares `Expect: 100-continue`.
pub fn has_expect_100(hs: &Vec<(Vec<u8>, Vec<u8>)>) -> (r: bool)
    ensures
        r == spec_has_expect_100(headers_view(hs@)),
{
    let name = name_expect();
    let value = value_continue_100();
    headers_has(hs, name.as_slice(), value.as_slice())
}

/// Whether the set declares `Connection: close`.
pub fn has_connection_close(hs: &Vec<(Vec<u8>, Vec<u8>)>) -> (r: bool)
    ensures
        r == spec_has_connection_close(headers_view(hs@)),
{
    let name = name_connection();
    let value = value_close();
    headers_has(hs, name.as_slice(), value.as_slice())
}

// ------------------------------------------------------------------ request

/// A fully parsed inbound request head.
pub struct Request {
    pub method: Method,
    pub path: Vec<u8>,
    pub version: Version,
    pub headers: Vec<(Vec<u8>, Vec<u8>)>,
}

// ----------------------------------------------------------------- response

/// An outbound response supplied by the caller: a status code and the body
/// value that a later phase will serialize.
pub struct Response<B> {
    pub status: u16,
    pub body: B,
}

impl<B> Response<B> {
    pub fn new(status: u16, body: B) -> (r: Response<B>)
        ensures
            r.status == status,
            r.body == body,
    {
        Response { status, body }
    }

    /// The status belongs to the client-error class.
    pub fn is_client_error(&self) -> (r: bool)
        ensures
            r == (400 <= self.status < 500),
    {
        400 <= self.status && self.status < 500
    }

    /// The status belongs to the server-error class.
    pub fn is_server_error(&self) -> (r: bool)
        ensures
            r == (500 <= self.status < 600),
    {
        500 <= self.status && self.status < 600
    }
}

} // verus!
