//! The RPC error taxonomy and its wire codes.

use vstd::prelude::*;

verus! {

/// An RPC error: a kind and a human-readable message.
#[derive(Debug, Clone)]
pub struct PRPCError {
    pub kind: PRPCErrorType,
    pub message: String,
}

/// The kinds of RPC errors.
#[derive(Debug, Clone, Copy, PartialEq, Eq, Structural)]
pub enum PRPCErrorType {
    Cancelled,
    Unknown,
    InvalidArgument,
    DeadlineExceeded,
    NotFound,
    AlreadyExists,
    PermissionDenied,
    ResourceExhausted,
    FailedPrecondition,
    Aborted,
    OutOfRange,
    Unimplemented,
    Internal,
    Unavailable,
    DataLoss,
    Unauthenticated,
}

/// The wire code of each error kind.
pub open spec fn code_of(t: PRPCErrorType) -> u8 {
    match t {
        PRPCErrorType::Cancelled => 1,
        PRPCErrorType::Unknown => 2,
        PRPCErrorType::InvalidArgument => 3,
        PRPCErrorType::DeadlineExceeded => 4,
        PRPCErrorType::NotFound => 5,
        PRPCErrorType::AlreadyExists => 6,
        PRPCErrorType::PermissionDenied => 7,
        PRPCErrorType::ResourceExhausted => 8,
        PRPCErrorType::FailedPrecondition => 9,
        PRPCErrorType::Aborted => 10,
        PRPCErrorType::OutOfRange => 11,
        PRPCErrorType::Unimplemented => 12,
        PRPCErrorType::Internal => 13,
        PRPCErrorType::Unavailable => 14,
        PRPCErrorType::DataLoss => 15,
        PRPCErrorType::Unauthenticated => 16,
    }
}

/// The kind a wire code names; codes outside 1 to 16 read as Unknown.
pub open spec fn type_of_code(code: int) -> PRPCErrorType {
    if code == 1 {
        PRPCErrorType::Cancelled
    } else if code == 3 {
        PRPCErrorType::InvalidArgument
    } else if code == 4 {
        PRPCErrorType::DeadlineExceeded
    } else if code == 5 {
        PRPCErrorType::NotFound
    } else if code == 6 {
        PRPCErrorType::AlreadyExists
    } else if code == 7 {
        PRPCErrorType::PermissionDenied
    } else if code == 8 {
        PRPCErrorType::ResourceExhausted
    } else if code == 9 {
        PRPCErrorType::FailedPrecondition
    } else if code == 10 {
        PRPCErrorType::Aborted
    } else if code == 11 {
        PRPCErrorType::OutOfRange
    } else if code == 12 {
        PRPCErrorType::Unimplemented
    } else if code == 13 {
        PRPCErrorType::Internal
    } else if code == 14 {
        PRPCErrorType::Unavailable
    } else if code == 15 {
        PRPCErrorType::DataLoss
    } else if code == 16 {
        PRPCErrorType::Unauthenticated
    } else {
        PRPCErrorType::Unknown
    }
}

impl PRPCErrorType {
    /// The wire code of this kind.
    pub fn to_code(&self) -> (r: u8)
        ensures
            r == code_of(*self),
    {
        match self {
            PRPCErrorType::Cancelled => 1,
            PRPCErrorType::Unknown => 2,
            PRPCErrorType::InvalidArgument => 3,
            PRPCErrorType::DeadlineExceeded => 4,
            PRPCErrorType::NotFound => 5,
            PRPCErrorType::AlreadyExists => 6,
            PRPCErrorType::PermissionDenied => 7,
            PRPCErrorType::ResourceExhausted => 8,
            PRPCErrorType::FailedPrecondition => 9,
            PRPCErrorType::Aborted => 10,
            PRPCErrorType::OutOfRange => 11,
            PRPCErrorType::Unimplemented => 12,
            PRPCErrorType::Internal => 13,
            PRPCErrorType::Unavailable => 14,
            PRPCErrorType::DataLoss => 15,
            PRPCErrorType::Unauthenticated => 16,
        }
    }

    /// The kind a wire code names; codes that name none read as Unknown.
    pub fn from_code(code: u8) -> (r: PRPCErrorType)
        ensures
            r == type_of_code(code as int),
    {
        match code {
            1 => PRPCErrorType::Cancelled,
            3 => PRPCErrorType::InvalidArgument,
            4 => PRPCErrorType::DeadlineExceeded,
            5 => PRPCErrorType::NotFound,
            6 => PRPCErrorType::AlreadyExists,
            7 => PRPCErrorType::PermissionDenied,
            8 => PRPCErrorType::ResourceExhausted,
            9 => PRPCErrorType::FailedPrecondition,
            10 => PRPCErrorType::Aborted,
            11 => PRPCErrorType::OutOfRange,
            12 => PRPCErrorType::Unimplemented,
            13 => PRPCErrorType::Internal,
            14 => PRPCErrorType::Unavailable,
            15 => PRPCErrorType::DataLoss,
            16 => PRPCErrorType::Unauthenticated,
            _ => PRPCErrorType::Unknown,
        }
    }
}

/// Reading a kind back from its own wire code is the identity: the codes
/// are faithful to the taxonomy.
pub proof fn lemma_code_round_trip(t: PRPCErrorType)
    ensures
        type_of_code(code_of(t) as int) == t,
{
}

} // verus!
