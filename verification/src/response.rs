//! What is written back: a status line and a body.

use vstd::prelude::*;
use vstd::string::*;

verus! {

/// The three statuses that the service answers with.
#[derive(Clone, Copy, Debug, PartialEq, Eq, Structural)]
pub enum Status {
    Success,
    NotFound,
    ServerError,
}

/// The head of a response with the given status, up to and including the
/// blank line before the body.
pub open spec fn status_line(status: Status) -> Seq<char> {
    match status {
        Status::Success => "HTTP/1.1 200 OK\r\nContent-Type: application/json\r\n\r\n"@,
        Status::NotFound => "HTTP/1.1 404 NOT FOUND\r\n\r\n"@,
        Status::ServerError => "HTTP/1.1 500 INTERNAL SERVER ERROR\r\n\r\n"@,
    }
}

/// The status as a number.
pub open spec fn status_code(status: Status) -> int {
    match status {
        Status::Success => 200,
        Status::NotFound => 404,
        Status::ServerError => 500,
    }
}

impl Status {
    pub fn line(&self) -> (r: &'static str)
        ensures
            r@ == status_line(*self),
    {
        match self {
            Status::Success => "HTTP/1.1 200 OK\r\nContent-Type: application/json\r\n\r\n",
            Status::NotFound => "HTTP/1.1 404 NOT FOUND\r\n\r\n",
            Status::ServerError => "HTTP/1.1 500 INTERNAL SERVER ERROR\r\n\r\n",
        }
    }

    pub fn code(&self) -> (r: u16)
        ensures
            r == status_code(*self),
    {
        match self {
            Status::Success => 200,
            Status::NotFound => 404,
            Status::ServerError => 500,
        }
    }
}

/// A status and a body.
#[derive(Debug, PartialEq, Eq)]
pub struct Response {
    pub status: Status,
    pub body: String,
}

/// A `Response` as contracts see it.
pub struct ResponseView {
    pub status: Status,
    pub body: Seq<char>,
}

impl View for Response {
    type V = ResponseView;

    open spec fn view(&self) -> ResponseView {
        ResponseView { status: self.status, body: self.body@ }
    }
}

/// The text that goes back over the connection.
pub open spec fn wire_text(r: ResponseView) -> Seq<char> {
    status_line(r.status) + r.body
}

impl Response {
    pub fn new(status: Status, body: &str) -> (r: Response)
        ensures
            r@ == (ResponseView { status, body: body@ }),
    {
        Response { status, body: String::from_str(body) }
    }

    pub fn to_text(&self) -> (r: String)
        ensures
            r@ == wire_text(self@),
    {
        let mut out: String = String::from_str(self.status.line());
        out.append(self.body.as_str());
        out
    }
}

} // verus!
