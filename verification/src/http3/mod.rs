//! HTTP/3 compatibility layer: frames, requests, responses and a request handler.
pub mod frame;
pub mod request;
pub mod response;
pub mod server;

use vstd::prelude::*;

verus! {

/// HTTP/3 errors, each with its message.
#[derive(Debug)]
pub enum Http3Error {
    InvalidFrame(String),
    ProtocolError(String),
    StreamError(String),
    IoError(String),
}

} // verus!
