//! The byte-level tokenizer boundary. The engine does not reimplement
//! status-line or header tokenization: it hands a candidate slice to the
//! `httparse` crate and trusts the narrow contracts stated here. The exact
//! content of a tokenization is named, not spelled out: it is a function of
//! the input bytes alone, and the verified callers speak of it through
//! `status_tokenization` and `request_tokenization`.

use vstd::prelude::*;
use crate::ParseErrorKind;
use crate::message::headers_view;

verus! {

/// What tokenizing a status line yields: the minor version digit, the
/// numeric code, and the reason phrase if one was present. `Ok(None)`
/// stands for a slice the tokenizer found incomplete.
pub uninterp spec fn status_tokenization(line: Seq<u8>) -> Result<
    Option<(int, int, Option<Seq<char>>)>,
    ParseErrorKind,
>;

/// What tokenizing a request head yields: method, path, minor version
/// digit, the header set in wire order, and the count of bytes the
/// tokenizer consumed. `Ok(None)` stands for a slice it found incomplete.
pub uninterp spec fn request_tokenization(head: Seq<u8>) -> Result<
    Option<(Seq<u8>, Seq<u8>, int, Seq<(Seq<u8>, Seq<u8>)>, int)>,
    ParseErrorKind,
>;

/// The mathematical reading of a status tokenization result.
pub open spec fn status_outcome(r: Result<Option<(u8, u16, Option<String>)>, ParseErrorKind>)
    -> Result<Option<(int, int, Option<Seq<char>>)>, ParseErrorKind> {
    match r {
        Ok(None) => Ok(None),
        Ok(Some((v, c, None))) => Ok(Some((v as int, c as int, None))),
        Ok(Some((v, c, Some(s)))) => Ok(Some((v as int, c as int, Some(s@)))),
        Err(k) => Err(k),
    }
}

/// The mathematical reading of a request tokenization result.
pub open spec fn request_outcome(
    r: Result<Option<(Vec<u8>, Vec<u8>, u8, Vec<(Vec<u8>, Vec<u8>)>, usize)>, ParseErrorKind>,
) -> Result<Option<(Seq<u8>, Seq<u8>, int, Seq<(Seq<u8>, Seq<u8>)>, int)>, ParseErrorKind> {
    match r {
        Ok(None) => Ok(None),
        Ok(Some((m, p, v, hs, n))) => Ok(Some((m@, p@, v as int, headers_view(hs@), n as int))),
        Err(k) => Err(k),
    }
}

/// What tokenizing a header block yields: the header set in wire order
/// and the count of bytes consumed, terminator included. `Ok(None)`
/// stands for a slice the tokenizer found incomplete.
pub uninterp spec fn headers_tokenization(block: Seq<u8>) -> Result<
    Option<(Seq<(Seq<u8>, Seq<u8>)>, int)>,
    ParseErrorKind,
>;

/// The mathematical reading of a header-block tokenization result.
pub open spec fn headers_outcome(
    r: Result<Option<(Vec<(Vec<u8>, Vec<u8>)>, usize)>, ParseErrorKind>,
) -> Result<Option<(Seq<(Seq<u8>, Seq<u8>)>, int)>, ParseErrorKind> {
    match r {
        Ok(None) => Ok(None),
        Ok(Some((hs, n))) => Ok(Some((headers_view(hs@), n as int))),
        Err(k) => Err(k),
    }
}

#[verifier::external_type_specification]
#[verifier::external_body]
pub struct ExHttparseError(httparse::Error);

/// Relies on `httparse::Error`: its seven variants classify every way a
/// message head can be malformed; each is carried over one for one.
#[verifier::external_body]
fn convert_err(e: httparse::Error) -> ParseErrorKind {
    match e {
        httparse::Error::HeaderName => ParseErrorKind::HeaderName,
        httparse::Error::HeaderValue => ParseErrorKind::HeaderValue,
        httparse::Error::NewLine => ParseErrorKind::NewLine,
        httparse::Error::Status => ParseErrorKind::StatusCode,
        httparse::Error::Token => ParseErrorKind::Token,
        httparse::Error::TooManyHeaders => ParseErrorKind::TooManyHeaders,
        httparse::Error::Version => ParseErrorKind::Version,
    }
}

/// Relies on `httparse::Response::parse`, applied to `input[..end]`: it
/// fills in version, code and reason once the status line is complete,
/// reports an incomplete slice without failing, classifies malformed
/// bytes, and reads nothing but the slice — the outcome is a function of
/// those bytes alone, named by `status_tokenization`.
#[verifier::external_body]
pub(crate) fn tokenize_status(input: &[u8], end: usize) -> (r: Result<
    Option<(u8, u16, Option<String>)>,
    ParseErrorKind,
>)
    requires
        end <= input.len(),
    ensures
        status_outcome(r) == status_tokenization(input@.subrange(0, end as int)),
{
    let mut headers = [httparse::EMPTY_HEADER; 4];
    let mut resp = httparse::Response::new(&mut headers);
    match resp.parse(&input[..end]) {
        Err(e) => Err(convert_err(e)),
        Ok(_) => match (resp.version, resp.code) {
            (Some(v), Some(c)) => Ok(Some((v, c, resp.reason.map(|s| s.to_string())))),
            _ => Ok(None),
        },
    }
}

/// Relies on `httparse::Request::parse`, applied to `input[..end]`: on a
/// complete head it fills in method, path and version, records the
/// headers in wire order, and returns the offset of the body — never past
/// the slice it was given. The outcome is a function of those bytes
/// alone, named by `request_tokenization`.
#[verifier::external_body]
pub(crate) fn tokenize_request(input: &[u8], end: usize) -> (r: Result<
    Option<(Vec<u8>, Vec<u8>, u8, Vec<(Vec<u8>, Vec<u8>)>, usize)>,
    ParseErrorKind,
>)
    requires
        end <= input.len(),
    ensures
        request_outcome(r) == request_tokenization(input@.subrange(0, end as int)),
        r matches Ok(Some(t)) ==> t.4 <= end,
{
    let mut headers = [httparse::EMPTY_HEADER; crate::server::MAX_REQUEST_HEADERS];
    let mut req = httparse::Request::new(&mut headers);
    match req.parse(&input[..end]) {
        Err(e) => Err(convert_err(e)),
        Ok(httparse::Status::Partial) => Ok(None),
        Ok(httparse::Status::Complete(n)) => Ok(Some((
            req.method.unwrap_or("").as_bytes().to_vec(),
            req.path.unwrap_or("").as_bytes().to_vec(),
            req.version.unwrap_or(0),
            req.headers.iter().map(|h| (h.name.as_bytes().to_vec(), h.value.to_vec())).collect(),
            n,
        ))),
    }
}

/// Relies on `httparse::parse_headers`, applied to `input[..end]`: on a
/// complete block it records the headers in wire order and returns the
/// offset just past the terminating blank line — never past the slice it
/// was given. The outcome is a function of those bytes alone, named by
/// `headers_tokenization`.
#[verifier::external_body]
pub(crate) fn tokenize_headers(input: &[u8], end: usize) -> (r: Result<
    Option<(Vec<(Vec<u8>, Vec<u8>)>, usize)>,
    ParseErrorKind,
>)
    requires
        end <= input.len(),
    ensures
        headers_outcome(r) == headers_tokenization(input@.subrange(0, end as int)),
        r matches Ok(Some(t)) ==> t.1 <= end,
{
    let mut headers = [httparse::EMPTY_HEADER; crate::server::MAX_REQUEST_HEADERS];
    match httparse::parse_headers(&input[..end], &mut headers) {
        Err(e) => Err(convert_err(e)),
        Ok(httparse::Status::Partial) => Ok(None),
        Ok(httparse::Status::Complete((n, hs))) => Ok(Some((
            hs.iter().map(|h| (h.name.as_bytes().to_vec(), h.value.to_vec())).collect(),
            n,
        ))),
    }
}

} // verus!
