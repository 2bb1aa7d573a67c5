//! The flat request and response shapes of the dispatcher.

use vstd::prelude::*;

use crate::prpc::error::PRPCError;

verus! {

/// A dispatched command: an optional bearer credential, the command name,
/// and its parameters.
#[derive(Debug, Clone)]
pub struct PRPCRequest<T> {
    pub auth: Option<String>,
    pub command: String,
    pub params: T,
}

/// The answer to a command: exactly one of `result` and `error` is set.
#[derive(Debug, Clone)]
pub struct PRPCResponse<T> {
    pub result: Option<T>,
    pub error: Option<PRPCError>,
}

impl<T> From<Result<T, PRPCError>> for PRPCResponse<T> {
    /// A result becomes a response with the matching side set and the
    /// other empty.
    fn from(result: Result<T, PRPCError>) -> (r: Self) {
        match result {
            Ok(response) => PRPCResponse { result: Some(response), error: None },
            Err(error) => PRPCResponse { result: None, error: Some(error) },
        }
    }
}

impl<T> vstd::std_specs::convert::FromSpecImpl<Result<T, PRPCError>> for PRPCResponse<T> {
    open spec fn obeys_from_spec() -> bool {
        true
    }

    open spec fn from_spec(result: Result<T, PRPCError>) -> Self {
        match result {
            Ok(response) => PRPCResponse { result: Some(response), error: None },
            Err(error) => PRPCResponse { result: None, error: Some(error) },
        }
    }
}

} // verus!
