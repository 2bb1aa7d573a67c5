//! The credential issuance and refresh-rotation engine.
//!
//! `codec` signs and checks claim sets, `store` holds the collaborator
//! interfaces and the reference in-memory adapters, `engine` orchestrates
//! login / get-user / refresh, and `protocol` states the laws of the
//! rotation protocol.

pub mod claims;
pub mod codec;
pub mod engine;
pub mod error;
pub mod protocol;
pub mod store;
