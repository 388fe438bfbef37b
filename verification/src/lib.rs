//! A two-endpoint HTTP service, stated as verified decisions on plain values.
//!
//! `handle_request` looks at the method and the path of a request and either
//! answers at once or asks for the request body; `handle_body` turns the
//! outcome of reading that body into the echo answer. Every answer carries the
//! same three cross-origin headers.

pub mod dispatch;
pub mod message;
pub mod service;
pub mod text;
pub mod theorems;

pub use crate::dispatch::{handle_body, handle_request, route, Route, Step};
pub use crate::message::{Header, Request, Response, STATUS_NOT_FOUND, STATUS_OK};
