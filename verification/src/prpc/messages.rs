//! The wire messages of the dispatcher.

use vstd::prelude::*;

use crate::prpc::error::{code_of, PRPCError};

verus! {

/// A dispatched command: an optional bearer credential, the command name,
/// and its parameters.
#[derive(Debug, Clone)]
pub struct PRPCReqeust<T> {
    pub auth: Option<String>,
    pub command: String,
    pub params: T,
}

/// The answer to a command: a result, or an error code with a message.
#[derive(Debug, Clone)]
pub enum PRPCResponse<T> {
    Result(T),
    Error { code: u8, message: String },
}

impl<T> From<PRPCError> for PRPCResponse<T> {
    /// An error becomes the error answer carrying its kind's wire code and
    /// its message.
    fn from(error: PRPCError) -> (r: Self) {
        let code = error.kind.to_code();
        PRPCResponse::Error { code, message: error.message }
    }
}

impl<T> vstd::std_specs::convert::FromSpecImpl<PRPCError> for PRPCResponse<T> {
    open spec fn obeys_from_spec() -> bool {
        true
    }

    open spec fn from_spec(error: PRPCError) -> Self {
        PRPCResponse::Error { code: code_of(error.kind), message: error.message }
    }
}

} // verus!
