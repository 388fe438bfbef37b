//! What holds of every answer of the service, stated over `answer`, the
//! function that the contracts of `handle_request` and `handle_body` speak of.

use vstd::prelude::*;
use vstd::string::*;
use crate::dispatch::{answer, echo_route, method_tokens_differ, route_of, Route};
use crate::message::{answer_with, cors_headers};
use crate::service::lossy_text;

verus! {

/// A request whose method is none of `GET`, `POST` and `OPTIONS` is answered
/// with status 404 and the body `Not Found`, on every path and with every body.
pub proof fn other_method_is_not_found(method: Seq<char>, path: Seq<char>, body: Seq<u8>)
    requires
        method != "GET"@,
        method != "POST"@,
        method != "OPTIONS"@,
    ensures
        route_of(method, path) == Route::NotFound,
        answer(method, path, body).status == 404,
        answer(method, path, body).body == "Not Found"@,
{
}

/// An `OPTIONS` request is answered with status 200 and an empty body, on every
/// path and with every body.
pub proof fn options_is_preflight(path: Seq<char>, body: Seq<u8>)
    ensures
        route_of("OPTIONS"@, path) == Route::Preflight,
        answer("OPTIONS"@, path, body).status == 200,
        answer("OPTIONS"@, path, body).body == Seq::<char>::empty(),
        answer("OPTIONS"@, path, body).body.len() == 0,
{
}

/// `GET /api/hello` is answered with status 200 and the body `Hello, World!`,
/// whatever the request holds besides its method and its path.
pub proof fn hello_is_greeting(body: Seq<u8>)
    ensures
        route_of("GET"@, "/api/hello"@) == Route::Hello,
        answer("GET"@, "/api/hello"@, body).status == 200,
        answer("GET"@, "/api/hello"@, body).body == "Hello, World!"@,
{
    method_tokens_differ();
}

/// `POST /api/echo` is answered with status 200 and the body `Echo: ` followed
/// by the lossy decoding of the request body, for every byte sequence: no body
/// is refused.
pub proof fn echo_is_prefixed_body(body: Seq<u8>)
    ensures
        route_of("POST"@, "/api/echo"@) == Route::Echo,
        answer("POST"@, "/api/echo"@, body).status == 200,
        answer("POST"@, "/api/echo"@, body).body == "Echo: "@ + lossy_text(body),
{
    echo_route();
}

/// Every answer carries the three cross-origin headers with their fixed values,
/// in the same order, and no other header.
pub proof fn every_answer_has_cors(method: Seq<char>, path: Seq<char>, body: Seq<u8>)
    ensures
        answer(method, path, body).headers == cors_headers(),
        answer(method, path, body).headers.len() == 3,
        answer(method, path, body).headers[0] == ("access-control-allow-origin"@, "*"@),
        answer(method, path, body).headers[1] == (
            "access-control-allow-methods"@,
            "GET,POST,OPTIONS"@,
        ),
        answer(method, path, body).headers[2] == ("access-control-allow-headers"@, "Content-Type"@),
{
}

/// A known path under a method that is not its own is answered like an unknown
/// path: with status 404 and the body `Not Found`, under the same headers.
/// `OPTIONS` is the one method that every path accepts.
pub proof fn wrong_method_is_not_found(method: Seq<char>, path: Seq<char>, body: Seq<u8>)
    requires
        method != "OPTIONS"@,
        path == "/api/hello"@ ==> method != "GET"@,
        path == "/api/echo"@ ==> method != "POST"@,
    ensures
        route_of(method, path) == Route::NotFound,
        answer(method, path, body) == answer_with(404, "Not Found"@),
{
}

/// The status of an answer is 200 or 404, and it is 404 exactly when no route
/// matches.
pub proof fn status_is_ok_or_not_found(method: Seq<char>, path: Seq<char>, body: Seq<u8>)
    ensures
        answer(method, path, body).status == 200 || answer(method, path, body).status == 404,
        answer(method, path, body).status == 404 <==> route_of(method, path) == Route::NotFound,
{
}

} // verus!
