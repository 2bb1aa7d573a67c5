//! Error shapes shared between the services and their clients.

use vstd::prelude::*;

verus! {

/// The body every service answers errors with.
#[derive(Debug, Clone)]
pub struct HttpErrResponseBody {
    pub error_type: String,
    pub message: String,
}

impl HttpErrResponseBody {
    /// Build a response body from an error's kind label and message.
    pub fn from_parts(error_type: String, message: String) -> (r: HttpErrResponseBody)
        ensures
            r.error_type@ == error_type@,
            r.message@ == message@,
    {
        HttpErrResponseBody { error_type, message }
    }
}

/// An error that knows the label of its kind.
pub trait TypedErr {
    /// The label of this error's kind, for the transport boundary.
    fn error_type(&self) -> String;
}

/// What a client made of a failed call: an untyped failure, or a typed
/// error body the service sent.
#[derive(Debug, Clone)]
pub enum ClientHttpResponseError {
    RawErr(String),
    TypedServiceErr(HttpErrResponseBody),
}

} // verus!
