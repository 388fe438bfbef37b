//! The two services: a fixed greeting, and an echo of the request body as text.

use vstd::prelude::*;
use vstd::string::*;
use vstd::utf8::*;
use hyper::body::Bytes;

verus! {

/// `bytes::Bytes`, which hyper hands on as `hyper::body::Bytes`: the buffer in
/// which a fully read request body arrives. Nothing of its fields is assumed.
#[verifier::external_type_specification]
#[verifier::external_body]
pub struct ExBytes(hyper::body::Bytes);

/// The bytes that a buffer holds, first to last.
pub uninterp spec fn bytes_content(buffer: Bytes) -> Seq<u8>;

/// What `String::from_utf8_lossy` makes of a byte sequence: its text, with each
/// invalid sequence replaced by U+FFFD.
pub uninterp spec fn lossy_text(bytes: Seq<u8>) -> Seq<char>;

/// The greeting.
pub open spec fn hello_text() -> Seq<char> {
    "Hello, World!"@
}

/// The echo of an already decoded body: the prefix `Echo: `, then the text.
pub open spec fn echo_of(decoded: Seq<char>) -> Seq<char> {
    "Echo: "@ + decoded
}

/// `Bytes::as_ref`: the buffer seen as a slice. The slice holds exactly the
/// buffer's bytes; this is what gives `bytes_content` its meaning.
#[verifier::external_body]
fn bytes_as_slice(buffer: &Bytes) -> (slice: &[u8])
    ensures
        slice@ == bytes_content(*buffer),
{
    buffer.as_ref()
}

/// `String::from_utf8_lossy`, with the result as an owned `String`. The result
/// depends on the bytes alone and is named `lossy_text`; on valid UTF-8 it is
/// the text that the bytes encode, as the function's documentation says.
#[verifier::external_body]
fn decode_lossy(bytes: &[u8]) -> (text: String)
    ensures
        text@ == lossy_text(bytes@),
        valid_utf8(bytes@) ==> text@ == decode_utf8(bytes@),
{
    String::from_utf8_lossy(bytes).into_owned()
}

/// The greeting, `Hello, World!`.
pub fn get_hello() -> (text: String)
    ensures
        text@ == hello_text(),
{
    "Hello, World!".to_owned()
}

/// The echo line for a body that has been decoded already.
pub fn echo_text(decoded: &str) -> (text: String)
    ensures
        text@ == echo_of(decoded@),
{
    "Echo: ".to_owned().concat(decoded)
}

/// The echo line for a request body: `Echo: ` followed by the body read as
/// UTF-8, invalid sequences replaced rather than refused.
pub fn post_echo(body: Bytes) -> (text: String)
    ensures
        text@ == echo_of(lossy_text(bytes_content(body))),
        valid_utf8(bytes_content(body)) ==> text@ == echo_of(decode_utf8(bytes_content(body))),
{
    let decoded = decode_lossy(bytes_as_slice(&body));
    echo_text(decoded.as_str())
}

} // verus!
