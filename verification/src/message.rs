//! Requests and responses as plain values, and what they stand for.

use vstd::prelude::*;
use vstd::string::*;

verus! {

/// Status of an answer that was found.
pub const STATUS_OK: u16 = 200;

/// Status of an answer to a request that matches no route.
pub const STATUS_NOT_FOUND: u16 = 404;

/// What the dispatcher reads of a request: the method token as it was sent
/// (tokens are case-sensitive) and the path of the target, without the query.
#[derive(Debug, PartialEq, Eq)]
pub struct Request {
    pub method: String,
    pub path: String,
}

/// One response header.
#[derive(Debug, PartialEq, Eq)]
pub struct Header {
    pub name: String,
    pub value: String,
}

/// A complete answer: status, headers in the order in which they are sent, body.
#[derive(Debug, PartialEq, Eq)]
pub struct Response {
    pub status: u16,
    pub headers: Vec<Header>,
    pub body: String,
}

/// A request as the contracts see it.
pub struct RequestView {
    pub method: Seq<char>,
    pub path: Seq<char>,
}

/// A response as the contracts see it: the headers are pairs of name and value.
pub struct ResponseView {
    pub status: nat,
    pub headers: Seq<(Seq<char>, Seq<char>)>,
    pub body: Seq<char>,
}

impl View for Request {
    type V = RequestView;

    open spec fn view(&self) -> RequestView {
        RequestView { method: self.method@, path: self.path@ }
    }
}

impl View for Header {
    type V = (Seq<char>, Seq<char>);

    open spec fn view(&self) -> (Seq<char>, Seq<char>) {
        (self.name@, self.value@)
    }
}

impl View for Response {
    type V = ResponseView;

    open spec fn view(&self) -> ResponseView {
        ResponseView {
            status: self.status as nat,
            headers: self.headers@.map_values(|h: Header| h@),
            body: self.body@,
        }
    }
}

impl Request {
    /// A request with the given method token and path.
    pub fn new(method: &str, path: &str) -> (req: Request)
        ensures
            req@.method == method@,
            req@.path == path@,
    {
        Request { method: method.to_owned(), path: path.to_owned() }
    }
}

impl Header {
    /// A header with the given name and value.
    pub fn new(name: &str, value: &str) -> (header: Header)
        ensures
            header@ == (name@, value@),
    {
        Header { name: name.to_owned(), value: value.to_owned() }
    }
}

/// The three cross-origin headers that every answer carries, in order.
pub open spec fn cors_headers() -> Seq<(Seq<char>, Seq<char>)> {
    seq![
        ("access-control-allow-origin"@, "*"@),
        ("access-control-allow-methods"@, "GET,POST,OPTIONS"@),
        ("access-control-allow-headers"@, "Content-Type"@),
    ]
}

/// The answer with the given status and body, under the cross-origin headers.
pub open spec fn answer_with(status: nat, body: Seq<char>) -> ResponseView {
    ResponseView { status, headers: cors_headers(), body }
}

impl Response {
    /// The answer with the given status and body. Whatever these are, it
    /// carries the three cross-origin headers and nothing else.
    pub fn with_cors(status: u16, body: String) -> (response: Response)
        ensures
            response@ == answer_with(status as nat, body@),
    {
        let mut headers: Vec<Header> = Vec::new();
        headers.push(Header::new("access-control-allow-origin", "*"));
        headers.push(Header::new("access-control-allow-methods", "GET,POST,OPTIONS"));
        headers.push(Header::new("access-control-allow-headers", "Content-Type"));
        let response = Response { status, headers, body };
        assert(response@.headers =~= cors_headers());
        response
    }
}

} // verus!
