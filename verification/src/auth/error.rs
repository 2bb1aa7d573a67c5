//! The error taxonomy of the engine.

use vstd::prelude::*;
use vstd::string::StringExecFns;

verus! {

/// Errors that can occur when using the engine.
#[derive(Debug, Clone)]
pub enum AuthApiError {
    /// A configuration value is missing; startup-fatal, never per-request.
    ConfigurationMissing(String),
    /// An invalid token was provided: not a valid signed token, not signed
    /// with the right secret, of the wrong type, expired, unknown to the
    /// ledger, replayed, or failing the cross-check.
    InvalidToken,
    /// An internal store failure, propagated untranslated.
    DatabaseError(String),
    /// The wrong credentials were provided. Unknown email and wrong
    /// password are deliberately indistinguishable.
    InvalidCredentials,
    /// Reserved for the out-of-scope registration flow.
    EmailAlreadyExists,
}

/// The label of each error kind.
pub open spec fn error_type_text(e: AuthApiError) -> Seq<char> {
    match e {
        AuthApiError::ConfigurationMissing(_) => "ConfigurationError"@,
        AuthApiError::InvalidToken => "InvalidToken"@,
        AuthApiError::DatabaseError(_) => "DatabaseError"@,
        AuthApiError::InvalidCredentials => "InvalidCredentials"@,
        AuthApiError::EmailAlreadyExists => "EmailAlreadyExists"@,
    }
}

impl AuthApiError {
    /// The label of this error's kind, for the transport boundary.
    pub fn error_type(&self) -> (r: String)
        ensures
            r@ == error_type_text(*self),
    {
        match self {
            AuthApiError::ConfigurationMissing(_) => String::from_str("ConfigurationError"),
            AuthApiError::InvalidToken => String::from_str("InvalidToken"),
            AuthApiError::DatabaseError(_) => String::from_str("DatabaseError"),
            AuthApiError::InvalidCredentials => String::from_str("InvalidCredentials"),
            AuthApiError::EmailAlreadyExists => String::from_str("EmailAlreadyExists"),
        }
    }
}

} // verus!
