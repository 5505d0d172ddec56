//! The client-role call engine: a typestate value that writes a request
//! head into a caller-supplied fixed-size buffer, hands the written bytes
//! out for transport, releases the buffer across a suspension, and parses
//! the remote status line incrementally.

pub mod state;

use vstd::prelude::*;
use vstd::slice::slice_subrange;

use crate::H1Error;
use crate::message::{method_name, minor_of, push_version, version_bytes, Method, Version};
use crate::message::headers_view;
use crate::tokenizer::{
    headers_tokenization, status_tokenization, tokenize_headers, tokenize_status,
};
use crate::util::{
    crlf_bytes, find_crlf, first_line_end, has_crlf, header_sep_bytes, is_crlf_at,
    is_first_crlf_at, push_crlf, push_header_sep, push_slice, push_sp, sp_bytes, write_range,
};

use self::state::{
    Prepare, RecvBody, RecvHeaders, RecvStatus, SendHeaders, SendHeadersWithBody, SendLine,
};

verus! {

/// The bytes of a request line: method, path and version separated by
/// single spaces, ended by CR LF.
pub open spec fn request_line(m: Seq<u8>, path: Seq<u8>, v: Version) -> Seq<u8> {
    m + sp_bytes() + path + sp_bytes() + version_bytes(v) + crlf_bytes()
}

/// The bytes of one header line: `name: value` ended by CR LF.
pub open spec fn header_line(name: Seq<u8>, value: Seq<u8>) -> Seq<u8> {
    name + header_sep_bytes() + value + crlf_bytes()
}

/// A parsed status line: the numeric code and the reason phrase, when one
/// was present.
#[derive(Debug, Clone, PartialEq, Eq)]
pub struct Status(pub u16, pub Option<String>);

/// The reason phrase `e` carries exactly the characters `t` names.
pub open spec fn reason_matches(e: Option<String>, t: Option<Seq<char>>) -> bool {
    match (e, t) {
        (Option::None, Option::None) => true,
        (Option::Some(x), Option::Some(y)) => x@ == y,
        _ => false,
    }
}

/// One in-flight call in some phase, holding the borrowed buffer and the
/// write cursor of the current round.
pub struct Call<Phase> {
    buf: Vec<u8>,
    len: usize,
    version: Version,
    ph: core::marker::PhantomData<Phase>,
}

/// The outcome of one incremental parse attempt: the same phase when the
/// input held no complete unit, or the successor phase with the consumed
/// byte count and the parsed value.
pub enum ParseResult<F, T, V> {
    /// Not enough input; the call is unchanged and nothing was consumed.
    Incomplete(Call<F>),
    /// A complete unit was parsed: the advanced call, the bytes consumed,
    /// and the parsed value.
    Complete(Call<T>, usize, V),
}

/// The storable, buffer-free residue of a call between rounds.
pub struct CallState<Phase> {
    version: Version,
    ph: core::marker::PhantomData<Phase>,
}

impl<Phase> CallState<Phase> {
    /// The version the exchange was started with.
    pub closed spec fn selected_version(self) -> Version {
        self.version
    }
}

/// The bytes written in one finished round, still borrowing the buffer
/// until `ready` releases it.
pub struct Output<Phase> {
    buf: Vec<u8>,
    len: usize,
    version: Version,
    ph: core::marker::PhantomData<Phase>,
}

impl<Phase> Output<Phase> {
    /// The write cursor never passes the end of the buffer.
    pub closed spec fn wf(self) -> bool {
        self.len <= self.buf@.len()
    }

    /// The bytes written this round.
    pub closed spec fn bytes(self) -> Seq<u8> {
        self.buf@.subrange(0, self.len as int)
    }

    /// The whole held buffer, written or not.
    pub closed spec fn buffer(self) -> Seq<u8> {
        self.buf@
    }

    /// The version the exchange was started with.
    pub closed spec fn selected_version(self) -> Version {
        self.version
    }

    /// The bytes of this round, ready to hand to a transport.
    pub fn as_bytes(&self) -> (r: &[u8])
        requires
            self.wf(),
        ensures
            r@ == self.bytes(),
    {
        slice_subrange(self.buf.as_slice(), 0, self.len)
    }

    /// Releases the buffer: what remains is a storable state that any
    /// later buffer can resume, and the buffer itself, returned intact.
    pub fn ready(self) -> (r: (CallState<Phase>, Vec<u8>))
        ensures
            r.0.selected_version() == self.selected_version(),
            r.1@ == self.buffer(),
    {
        (CallState { version: self.version, ph: core::marker::PhantomData }, self.buf)
    }
}

impl<Phase> Call<Phase> {
    /// The write cursor never passes the end of the buffer.
    pub closed spec fn wf(self) -> bool {
        self.len <= self.buf@.len()
    }

    /// The bytes written so far in this round.
    pub closed spec fn written(self) -> Seq<u8> {
        self.buf@.subrange(0, self.len as int)
    }

    /// The size of the borrowed buffer.
    pub closed spec fn capacity(self) -> nat {
        self.buf@.len()
    }

    /// The version the exchange was started with.
    pub closed spec fn selected_version(self) -> Version {
        self.version
    }

    /// Appends `data` at the cursor if it fits, reporting overflow — and
    /// leaving this round's bytes untouched — if it does not.
    fn append(&mut self, data: &Vec<u8>) -> (ok: bool)
        requires
            old(self).wf(),
        ensures
            final(self).wf(),
            final(self).capacity() == old(self).capacity(),
            final(self).selected_version() == old(self).selected_version(),
            ok <==> old(self).written().len() + data@.len() <= old(self).capacity(),
            ok ==> final(self).written() == old(self).written() + data@,
            !ok ==> final(self).written() == old(self).written(),
    {
        let ok = write_range(&mut self.buf, self.len, data);
        if ok {
            let total: usize = self.buf.len();
            proof {
                assert(self.len + data@.len() <= total);
            }
            self.len = self.len + data.len();
            proof {
                assert(self.written() =~= old(self).written() + data@);
            }
        }
        ok
    }

    /// Ends the current write round, yielding the bytes to send.
    pub fn flush(self) -> (o: Output<Phase>)
        requires
            self.wf(),
        ensures
            o.wf(),
            o.bytes() == self.written(),
            o.buffer().len() == self.capacity(),
            o.selected_version() == self.selected_version(),
    {
        Output { buf: self.buf, len: self.len, version: self.version, ph: core::marker::PhantomData }
    }

    /// Rehydrates a call from a stored state and a buffer — the same one
    /// as before or any other. The cursor starts at zero: each round
    /// writes independently.
    pub fn resume(state: CallState<Phase>, buf: Vec<u8>) -> (c: Call<Phase>)
        ensures
            c.wf(),
            c.written() == Seq::<u8>::empty(),
            c.capacity() == buf@.len(),
            c.selected_version() == state.selected_version(),
    {
        let c = Call { buf, len: 0, version: state.version, ph: core::marker::PhantomData };
        proof {
            assert(c.written() =~= Seq::<u8>::empty());
        }
        c
    }

    /// Builds and appends a request line for `m`.
    fn write_request_line(&mut self, m: &Method, path: &[u8]) -> (ok: bool)
        requires
            old(self).wf(),
        ensures
            final(self).wf(),
            final(self).capacity() == old(self).capacity(),
            final(self).selected_version() == old(self).selected_version(),
            ok <==> old(self).written().len() + request_line(
                method_name(*m),
                path@,
                old(self).selected_version(),
            ).len() <= old(self).capacity(),
            ok ==> final(self).written() == old(self).written() + request_line(
                method_name(*m),
                path@,
                old(self).selected_version(),
            ),
            !ok ==> final(self).written() == old(self).written(),
    {
        let mut line: Vec<u8> = Vec::new();
        m.push_name(&mut line);
        push_sp(&mut line);
        push_slice(&mut line, path);
        push_sp(&mut line);
        push_version(&mut line, self.version);
        push_crlf(&mut line);
        proof {
            assert(line@ =~= request_line(method_name(*m), path@, old(self).selected_version()));
        }
        self.append(&line)
    }

    /// Builds and appends one header line.
    fn write_header_line(&mut self, name: &[u8], value: &[u8]) -> (ok: bool)
        requires
            old(self).wf(),
        ensures
            final(self).wf(),
            final(self).capacity() == old(self).capacity(),
            final(self).selected_version() == old(self).selected_version(),
            ok <==> old(self).written().len() + header_line(name@, value@).len() <= old(
                self,
            ).capacity(),
            ok ==> final(self).written() == old(self).written() + header_line(name@, value@),
            !ok ==> final(self).written() == old(self).written(),
    {
        let mut line: Vec<u8> = Vec::new();
        push_slice(&mut line, name);
        push_header_sep(&mut line);
        push_slice(&mut line, value);
        push_crlf(&mut line);
        proof {
            assert(line@ =~= header_line(name@, value@));
        }
        self.append(&line)
    }

    /// Appends the blank line that ends a message head.
    fn write_head_end(&mut self) -> (ok: bool)
        requires
            old(self).wf(),
        ensures
            final(self).wf(),
            final(self).capacity() == old(self).capacity(),
            final(self).selected_version() == old(self).selected_version(),
            ok <==> old(self).written().len() + crlf_bytes().len() <= old(self).capacity(),
            ok ==> final(self).written() == old(self).written() + crlf_bytes(),
            !ok ==> final(self).written() == old(self).written(),
    {
        let mut line: Vec<u8> = Vec::new();
        push_crlf(&mut line);
        proof {
            assert(line@ =~= crlf_bytes());
        }
        self.append(&line)
    }
}

impl Call<Prepare> {
    /// Starts a new call over the given buffer; the buffer is held until
    /// `flush` ends the round.
    pub fn new(buf: Vec<u8>) -> (c: Call<Prepare>)
        ensures
            c.wf(),
            c.written() == Seq::<u8>::empty(),
            c.capacity() == buf@.len(),
    {
        let c = Call { buf, len: 0, version: Version::Http11, ph: core::marker::PhantomData };
        proof {
            assert(c.written() =~= Seq::<u8>::empty());
        }
        c
    }

    /// Selects HTTP/1.0 for this exchange.
    pub fn http_10(self) -> (c: Call<SendLine>)
        requires
            self.wf(),
        ensures
            c.wf(),
            c.written() == self.written(),
            c.capacity() == self.capacity(),
            c.selected_version() == Version::Http10,
    {
        Call { buf: self.buf, len: self.len, version: Version::Http10, ph: core::marker::PhantomData }
    }

    /// Selects HTTP/1.1 for this exchange.
    pub fn http_11(self) -> (c: Call<SendLine>)
        requires
            self.wf(),
        ensures
            c.wf(),
            c.written() == self.written(),
            c.capacity() == self.capacity(),
            c.selected_version() == Version::Http11,
    {
        Call { buf: self.buf, len: self.len, version: Version::Http11, ph: core::marker::PhantomData }
    }
}

impl Call<SendLine> {
    /// Writes a GET request line; GET carries no request body.
    pub fn get(self, path: &[u8]) -> (r: Result<Call<SendHeaders>, H1Error>)
        requires
            self.wf(),
        ensures
            r is Ok <==> self.written().len() + request_line(
                method_name(Method::Get),
                path@,
                self.selected_version(),
            ).len() <= self.capacity(),
            r matches Ok(c) ==> c.wf() && c.capacity() == self.capacity()
                && c.selected_version() == self.selected_version() && c.written() == self.written()
                + request_line(method_name(Method::Get), path@, self.selected_version()),
            r matches Err(e) ==> e == H1Error::OutputOverflow,
    {
        let mut this = self;
        if this.write_request_line(&Method::Get, path) {
            Ok(
                Call {
                    buf: this.buf,
                    len: this.len,
                    version: this.version,
                    ph: core::marker::PhantomData,
                },
            )
        } else {
            Err(H1Error::OutputOverflow)
        }
    }

    /// Writes a HEAD request line; HEAD carries no request body.
    pub fn head(self, path: &[u8]) -> (r: Result<Call<SendHeaders>, H1Error>)
        requires
            self.wf(),
        ensures
            r is Ok <==> self.written().len() + request_line(
                method_name(Method::Head),
                path@,
                self.selected_version(),
            ).len() <= self.capacity(),
            r matches Ok(c) ==> c.wf() && c.capacity() == self.capacity()
                && c.selected_version() == self.selected_version() && c.written() == self.written()
                + request_line(method_name(Method::Head), path@, self.selected_version()),
            r matches Err(e) ==> e == H1Error::OutputOverflow,
    {
        let mut this = self;
        if this.write_request_line(&Method::Head, path) {
            Ok(
                Call {
                    buf: this.buf,
                    len: this.len,
                    version: this.version,
                    ph: core::marker::PhantomData,
                },
            )
        } else {
            Err(H1Error::OutputOverflow)
        }
    }

    /// Writes a POST request line; POST carries a request body.
    pub fn post(self, path: &[u8]) -> (r: Result<Call<SendHeadersWithBody>, H1Error>)
        requires
            self.wf(),
        ensures
            r is Ok <==> self.written().len() + request_line(
                method_name(Method::Post),
                path@,
                self.selected_version(),
            ).len() <= self.capacity(),
            r matches Ok(c) ==> c.wf() && c.capacity() == self.capacity()
                && c.selected_version() == self.selected_version() && c.written() == self.written()
                + request_line(method_name(Method::Post), path@, self.selected_version()),
            r matches Err(e) ==> e == H1Error::OutputOverflow,
    {
        let mut this = self;
        if this.write_request_line(&Method::Post, path) {
            Ok(
                Call {
                    buf: this.buf,
                    len: this.len,
                    version: this.version,
                    ph: core::marker::PhantomData,
                },
            )
        } else {
            Err(H1Error::OutputOverflow)
        }
    }

    /// Writes a PUT request line; PUT carries a request body.
    pub fn put(self, path: &[u8]) -> (r: Result<Call<SendHeadersWithBody>, H1Error>)
        requires
            self.wf(),
        ensures
            r is Ok <==> self.written().len() + request_line(
                method_name(Method::Put),
                path@,
                self.selected_version(),
            ).len() <= self.capacity(),
            r matches Ok(c) ==> c.wf() && c.capacity() == self.capacity()
                && c.selected_version() == self.selected_version() && c.written() == self.written()
                + request_line(method_name(Method::Put), path@, self.selected_version()),
            r matches Err(e) ==> e == H1Error::OutputOverflow,
    {
        let mut this = self;
        if this.write_request_line(&Method::Put, path) {
            Ok(
                Call {
                    buf: this.buf,
                    len: this.len,
                    version: this.version,
                    ph: core::marker::PhantomData,
                },
            )
        } else {
            Err(H1Error::OutputOverflow)
        }
    }
}

impl Call<SendHeaders> {
    /// Writes one header line.
    pub fn header(self, name: &[u8], value: &[u8]) -> (r: Result<Call<SendHeaders>, H1Error>)
        requires
            self.wf(),
        ensures
            r is Ok <==> self.written().len() + header_line(name@, value@).len()
                <= self.capacity(),
            r matches Ok(c) ==> c.wf() && c.capacity() == self.capacity()
                && c.selected_version() == self.selected_version() && c.written() == self.written()
                + header_line(name@, value@),
            r matches Err(e) ==> e == H1Error::OutputOverflow,
    {
        let mut this = self;
        if this.write_header_line(name, value) {
            Ok(this)
        } else {
            Err(H1Error::OutputOverflow)
        }
    }

    /// Ends the head of a bodiless request with a blank line; the call
    /// then awaits the remote status line.
    pub fn finish(self) -> (r: Result<Call<RecvStatus>, H1Error>)
        requires
            self.wf(),
        ensures
            r is Ok <==> self.written().len() + crlf_bytes().len() <= self.capacity(),
            r matches Ok(c) ==> c.wf() && c.capacity() == self.capacity()
                && c.selected_version() == self.selected_version() && c.written() == self.written()
                + crlf_bytes(),
            r matches Err(e) ==> e == H1Error::OutputOverflow,
    {
        let mut this = self;
        if this.write_head_end() {
            Ok(
                Call {
                    buf: this.buf,
                    len: this.len,
                    version: this.version,
                    ph: core::marker::PhantomData,
                },
            )
        } else {
            Err(H1Error::OutputOverflow)
        }
    }
}

impl Call<SendHeadersWithBody> {
    /// Writes one header line.
    pub fn header(self, name: &[u8], value: &[u8]) -> (r: Result<
        Call<SendHeadersWithBody>,
        H1Error,
    >)
        requires
            self.wf(),
        ensures
            r is Ok <==> self.written().len() + header_line(name@, value@).len()
                <= self.capacity(),
            r matches Ok(c) ==> c.wf() && c.capacity() == self.capacity()
                && c.selected_version() == self.selected_version() && c.written() == self.written()
                + header_line(name@, value@),
            r matches Err(e) ==> e == H1Error::OutputOverflow,
    {
        let mut this = self;
        if this.write_header_line(name, value) {
            Ok(this)
        } else {
            Err(H1Error::OutputOverflow)
        }
    }
}

/// The incremental-parse law for status lines: a line that ends at its
/// first terminator has no terminator in any strict prefix, so feeding
/// such a prefix to `parse_status` is reported `Incomplete` — the phase
/// is unchanged and nothing is consumed — and only the first input that
/// holds the whole line can complete, consuming exactly its length.
pub proof fn lemma_status_prefix_incomplete(s: Seq<u8>, n: int)
    requires
        is_first_crlf_at(s, s.len() - 2),
        0 <= n < s.len(),
    ensures
        !has_crlf(s.take(n)),
        first_line_end(s.take(n)) is None,
        first_line_end(s) == Some(s.len() as int),
{
    assert forall|j: int| !is_crlf_at(s.take(n), j) by {
        let t = s.take(n);
        assert(t.len() == n);
        if 0 <= j && j + 1 < n {
            assert(t[j] == s[j]);
            assert(t[j + 1] == s[j + 1]);
            assert(j < s.len() - 2);
            assert(!is_crlf_at(s, j));
            assert(!is_crlf_at(t, j));
        } else {
            assert(!is_crlf_at(t, j));
        }
    }
    let k = choose|i: int| is_first_crlf_at(s, i);
    crate::util::lemma_first_crlf_unique(s, k, s.len() - 2);
}

impl Call<RecvStatus> {
    /// Feeds accumulated remote bytes to the tokenizer. Without a complete
    /// line the attempt is `Incomplete`: the phase is unchanged and
    /// nothing is consumed, so the caller retries with a superset of the
    /// bytes. With a complete first line the outcome is decided by the
    /// tokenization of exactly that line, and on success the consumed
    /// count is the line's length, terminator included.
    pub fn parse_status(self, input: &[u8]) -> (r: Result<
        ParseResult<RecvStatus, RecvHeaders, Status>,
        H1Error,
    >)
        requires
            self.wf(),
        ensures
            ({
                let s = input@;
                match first_line_end(s) {
                    Option::None => r matches Ok(ParseResult::Incomplete(c)) && c == self,
                    Option::Some(end) => match status_tokenization(s.subrange(0, end)) {
                        Result::Err(k) => r matches Err(e) && e == H1Error::ParseError(k),
                        Result::Ok(Option::None) => r matches Ok(ParseResult::Incomplete(c)) && c
                            == self,
                        Result::Ok(Option::Some(t)) => if t.0 == minor_of(self.selected_version()) {
                            r matches Ok(ParseResult::Complete(c, n, sts)) && n == end && sts.0
                                == t.1 && reason_matches(sts.1, t.2) && c.wf() && c.capacity()
                                == self.capacity() && c.written() == self.written()
                                && c.selected_version() == self.selected_version()
                        } else {
                            r matches Err(e) && e == H1Error::InvalidHttpVersion
                        },
                    },
                }
            }),
    {
        match find_crlf(input) {
            None => Ok(ParseResult::Incomplete(self)),
            Some(i) => {
                let ilen: usize = input.len();
                proof {
                    assert(i + 2 <= ilen);
                }
                let end = i + 2;
                match tokenize_status(input, end) {
                    Err(k) => Err(H1Error::ParseError(k)),
                    Ok(None) => Ok(ParseResult::Incomplete(self)),
                    Ok(Some((v, code, reason))) => {
                        let expected: u8 = match self.version {
                            Version::Http10 => 0,
                            Version::Http11 => 1,
                        };
                        if v != expected {
                            Err(H1Error::InvalidHttpVersion)
                        } else {
                            Ok(
                                ParseResult::Complete(
                                    Call {
                                        buf: self.buf,
                                        len: self.len,
                                        version: self.version,
                                        ph: core::marker::PhantomData,
                                    },
                                    end,
                                    Status(code, reason),
                                ),
                            )
                        }
                    },
                }
            },
        }
    }
}

impl Call<RecvHeaders> {
    /// Feeds accumulated remote bytes holding the response's header
    /// block. Until the block's terminating blank line has arrived the
    /// attempt is `Incomplete`: the phase is unchanged and nothing is
    /// consumed, so the caller retries with a superset of the bytes.
    /// A complete block hands back the header set in wire order and the
    /// byte count consumed, terminator included.
    pub fn parse_headers(self, input: &[u8]) -> (r: Result<
        ParseResult<RecvHeaders, RecvBody, Vec<(Vec<u8>, Vec<u8>)>>,
        H1Error,
    >)
        requires
            self.wf(),
        ensures
            ({
                let s = input@;
                match headers_tokenization(s) {
                    Result::Err(k) => r matches Err(e) && e == H1Error::ParseError(k),
                    Result::Ok(Option::None) => r matches Ok(ParseResult::Incomplete(c)) && c
                        == self,
                    Result::Ok(Option::Some(t)) => r matches Ok(ParseResult::Complete(c, n, hs))
                        && n == t.1 && headers_view(hs@) == t.0 && c.wf() && c.capacity()
                        == self.capacity() && c.written() == self.written()
                        && c.selected_version() == self.selected_version(),
                }
            }),
    {
        let ilen: usize = input.len();
        proof {
            assert(input@.subrange(0, ilen as int) =~= input@);
        }
        match tokenize_headers(input, ilen) {
            Err(k) => Err(H1Error::ParseError(k)),
            Ok(None) => Ok(ParseResult::Incomplete(self)),
            Ok(Some((hs, n))) => Ok(
                ParseResult::Complete(
                    Call {
                        buf: self.buf,
                        len: self.len,
                        version: self.version,
                        ph: core::marker::PhantomData,
                    },
                    n,
                    hs,
                ),
            ),
        }
    }
}

} // verus!
