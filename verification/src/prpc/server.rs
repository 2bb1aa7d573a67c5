//! The failure taxonomy of the dispatcher's server side; the dispatcher
//! itself — middleware chains and handler tables over dynamic futures —
//! lives outside the verified core.

use vstd::prelude::*;

verus! {

/// What can go wrong while building or running the server.
#[derive(Debug, Clone, Copy, PartialEq, Eq, Structural)]
pub enum PRPCServerError {
    /// An authenticated command was registered but no token secret was
    /// set.
    TokenSecretNotSet,
    Unknown,
}

} // verus!
