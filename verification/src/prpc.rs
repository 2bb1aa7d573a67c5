//! The message and error types of the generic RPC dispatcher.

pub mod error;
pub mod messages;
pub mod request_response;
pub mod server;
