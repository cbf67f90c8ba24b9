//! From the bytes read off a connection to a method, a path and a body.

use vstd::prelude::*;
use vstd::slice::*;
use vstd::string::*;
use crate::carrera::Carrera;
use crate::codec::{decode, decoded, decodes_to, DecodeError};
use crate::text::{body_of, first_token, get_body, get_first_token, get_second_token, second_token};

verus! {

/// How many bytes of a request are read. What a client sends beyond them is
/// dropped, so a longer request loses the end of its body.
pub const MAX_REQUEST_BYTES: usize = 1024;

/// What is read of a request.
#[derive(Debug, PartialEq, Eq)]
pub struct Request {
    pub method: String,
    pub path: String,
    pub body: String,
}

/// A `Request` as contracts see it.
pub struct RequestView {
    pub method: Seq<char>,
    pub path: Seq<char>,
    pub body: Seq<char>,
}

impl View for Request {
    type V = RequestView;

    open spec fn view(&self) -> RequestView {
        RequestView { method: self.method@, path: self.path@, body: self.body@ }
    }
}

/// The text that `String::from_utf8_lossy` reads from `bytes`: their UTF-8
/// decoding, with U+FFFD in the place of what does not decode.
pub uninterp spec fn lossy_text(bytes: Seq<u8>) -> Seq<char>;

/// Calls `String::from_utf8_lossy`. Taken on trust: the call returns for
/// every run of bytes, and its text depends on the bytes alone.
#[verifier::external_body]
fn decode_lossy(bytes: &[u8]) -> (r: String)
    ensures
        r@ == lossy_text(bytes@),
{
    String::from_utf8_lossy(bytes).into_owned()
}

/// The part of `bytes` that is read: at most the first `MAX_REQUEST_BYTES`.
pub open spec fn accepted(bytes: Seq<u8>) -> Seq<u8> {
    if bytes.len() > MAX_REQUEST_BYTES {
        bytes.take(MAX_REQUEST_BYTES as int)
    } else {
        bytes
    }
}

/// The request that a text holds: its first token, its second token, and
/// what follows its first blank line.
pub open spec fn parsed(text: Seq<char>) -> RequestView {
    RequestView { method: first_token(text), path: second_token(text), body: body_of(text) }
}

/// Reads method, path and body from the text of a request.
pub fn parse_text(text: &str) -> (r: Request)
    ensures
        r@ == parsed(text@),
{
    Request {
        method: String::from_str(get_first_token(text)),
        path: String::from_str(get_second_token(text)),
        body: String::from_str(get_body(text)),
    }
}

/// The text of the bytes that are read.
pub fn read_text(bytes: &[u8]) -> (r: String)
    ensures
        r@ == lossy_text(accepted(bytes@)),
{
    if bytes.len() > MAX_REQUEST_BYTES {
        decode_lossy(slice_subrange(bytes, 0, MAX_REQUEST_BYTES))
    } else {
        decode_lossy(bytes)
    }
}

/// Reads method, path and body from the bytes of a request.
pub fn parse_request(bytes: &[u8]) -> (r: Request)
    ensures
        r@ == parsed(lossy_text(accepted(bytes@))),
{
    let text: String = read_text(bytes);
    parse_text(text.as_str())
}

/// The record in the body of a request, given the request's whole text.
pub fn get_carrera_request_body(request: &str) -> (r: Result<Carrera, DecodeError>)
    ensures
        decodes_to(r, decoded(body_of(request@))),
{
    decode(get_body(request))
}

} // verus!
