//! The dispatcher: which answer a request gets, decided on its method and path.
//!
//! Reading a request body is not done here. `handle_request` says whether the
//! body is needed; whoever owns the connection reads it and hands the outcome
//! to `handle_body`.

use vstd::prelude::*;
use vstd::string::*;
use vstd::utf8::{decode_utf8, valid_utf8};
use hyper::body::Bytes;
use crate::message::{answer_with, cors_headers, Request, Response, ResponseView, STATUS_NOT_FOUND, STATUS_OK};
use crate::service::{bytes_content, echo_of, get_hello, hello_text, lossy_text, post_echo};
use crate::text::text_eq;

verus! {

/// The four behaviours of the service.
#[derive(Clone, Copy, Debug, PartialEq, Eq, Structural)]
pub enum Route {
    /// A cross-origin preflight: any `OPTIONS` request.
    Preflight,
    /// The greeting: `GET /api/hello`.
    Hello,
    /// The echo: `POST /api/echo`.
    Echo,
    /// Everything else.
    NotFound,
}

/// What the dispatcher does next with a request.
#[derive(Debug, PartialEq, Eq)]
pub enum Step {
    /// The answer is ready.
    Reply(Response),
    /// The answer depends on the request body, which has to be read first.
    ReadBody,
}

/// The routing table. `OPTIONS` wins on every path; the two other routes need
/// both their method and their exact path; a wrong method and a wrong path are
/// not told apart.
pub open spec fn route_of(method: Seq<char>, path: Seq<char>) -> Route {
    if method == "OPTIONS"@ {
        Route::Preflight
    } else if method == "GET"@ && path == "/api/hello"@ {
        Route::Hello
    } else if method == "POST"@ && path == "/api/echo"@ {
        Route::Echo
    } else {
        Route::NotFound
    }
}

/// The answer of a route, given the text of the request body. Only the echo
/// reads the text.
pub open spec fn answer_of(route: Route, body_text: Seq<char>) -> ResponseView {
    match route {
        Route::Preflight => answer_with(200, Seq::empty()),
        Route::Hello => answer_with(200, hello_text()),
        Route::Echo => answer_with(200, echo_of(body_text)),
        Route::NotFound => answer_with(404, "Not Found"@),
    }
}

/// The answer of the service to a request with the given method, path and body
/// bytes, once the body has been read where it is needed.
pub open spec fn answer(method: Seq<char>, path: Seq<char>, body: Seq<u8>) -> ResponseView {
    answer_of(route_of(method, path), lossy_text(body))
}

/// Looks a method and a path up in the routing table.
pub fn route(method: &str, path: &str) -> (found: Route)
    ensures
        found == route_of(method@, path@),
{
    if text_eq(method, "OPTIONS") {
        Route::Preflight
    } else if text_eq(method, "GET") && text_eq(path, "/api/hello") {
        Route::Hello
    } else if text_eq(method, "POST") && text_eq(path, "/api/echo") {
        Route::Echo
    } else {
        Route::NotFound
    }
}

/// The first step on a request. Every route but the echo is answered at once,
/// with the answer that the service gives whatever the body holds; for the
/// echo the body is asked for, and `handle_body` gives the answer.
pub fn handle_request(req: &Request) -> (step: Step)
    ensures
        step is ReadBody <==> route_of(req@.method, req@.path) == Route::Echo,
        step matches Step::Reply(response) ==> {
            &&& response@ == answer_of(route_of(req@.method, req@.path), Seq::empty())
            &&& forall|body: Seq<u8>| response@ == #[trigger] answer(req@.method, req@.path, body)
            &&& response@.headers == cors_headers()
        },
{
    match route(req.method.as_str(), req.path.as_str()) {
        Route::Preflight => Step::Reply(Response::with_cors(STATUS_OK, String::new())),
        Route::Hello => Step::Reply(Response::with_cors(STATUS_OK, get_hello())),
        Route::Echo => Step::ReadBody,
        Route::NotFound => Step::Reply(
            Response::with_cors(STATUS_NOT_FOUND, "Not Found".to_owned()),
        ),
    }
}

/// The second step of the echo, on the outcome of reading the request body. A
/// body that was read is echoed with status 200, whatever bytes it holds: bytes
/// that are no valid UTF-8 are replaced, not refused. A failure to read the
/// body is handed back as it came, and no answer is made.
pub fn handle_body<E>(outcome: Result<Bytes, E>) -> (result: Result<Response, E>)
    ensures
        match outcome {
            Ok(body) => {
                &&& result matches Ok(response)
                &&& response@ == answer_of(Route::Echo, lossy_text(bytes_content(body)))
                &&& response@ == answer("POST"@, "/api/echo"@, bytes_content(body))
                &&& response@.headers == cors_headers()
                &&& valid_utf8(bytes_content(body)) ==> response@.body == echo_of(
                    decode_utf8(bytes_content(body)),
                )
            },
            Err(failure) => result == Err::<Response, E>(failure),
        },
{
    match outcome {
        Ok(body) => {
            proof {
                echo_route();
            }
            Ok(Response::with_cors(STATUS_OK, post_echo(body)))
        },
        Err(failure) => Err(failure),
    }
}

/// The three method tokens of the routing table differ from one another.
pub proof fn method_tokens_differ()
    ensures
        "OPTIONS"@ != "GET"@,
        "OPTIONS"@ != "POST"@,
        "GET"@ != "POST"@,
{
    reveal_strlit("OPTIONS");
    reveal_strlit("GET");
    reveal_strlit("POST");
    assert("OPTIONS"@.len() == 7);
    assert("GET"@.len() == 3);
    assert("POST"@.len() == 4);
}

/// `POST /api/echo` is the echo route.
pub proof fn echo_route()
    ensures
        route_of("POST"@, "/api/echo"@) == Route::Echo,
{
    method_tokens_differ();
}

} // verus!
