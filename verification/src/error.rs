//! The failure taxonomy shared by every component.

use vstd::prelude::*;

verus! {

/// Why no allocation plan could be computed.
#[derive(Clone, Copy, Debug, PartialEq, Eq, Structural)]
pub enum AllocationFault {
    /// The statistics snapshot names no protocol at all.
    NoProtocols,
    /// There is nothing to allocate.
    ZeroTotalAmount,
    /// The snapshot names the same protocol more than once.
    DuplicateProtocol,
}

/// A typed failure. Only `NetworkError` is transient.
#[derive(Clone, Copy, Debug, PartialEq, Eq, Structural)]
pub enum RestakingError {
    /// The backend could not be reached or answered with a server-side fault.
    NetworkError,
    /// The credentials were refused.
    AuthError,
    /// An address, an amount or the shape of a response was malformed.
    ValidationError,
    /// A statistics response could not be decoded.
    ParseError,
    /// The protocol does not offer the requested action.
    UnsupportedOperation,
    /// The allocation input was degenerate.
    AllocationError(AllocationFault),
}

impl RestakingError {
    /// Whether a failed call may be attempted again.
    pub fn is_retryable(&self) -> (r: bool)
        ensures
            r == (*self == RestakingError::NetworkError),
    {
        match self {
            RestakingError::NetworkError => true,
            _ => false,
        }
    }

    /// A short, stable description for logs and user-facing messages.
    pub fn message(&self) -> (r: &'static str)
        ensures
            r@ == self.message_text(),
    {
        match self {
            RestakingError::NetworkError => "network error",
            RestakingError::AuthError => "authorization failed",
            RestakingError::ValidationError => "validation failed",
            RestakingError::ParseError => "malformed statistics",
            RestakingError::UnsupportedOperation => "unsupported operation",
            RestakingError::AllocationError(AllocationFault::NoProtocols) => "allocation failed: no protocols",
            RestakingError::AllocationError(AllocationFault::ZeroTotalAmount) => "allocation failed: zero total amount",
            RestakingError::AllocationError(AllocationFault::DuplicateProtocol) => "allocation failed: duplicate protocol",
        }
    }

    pub open spec fn message_text(&self) -> Seq<char> {
        match self {
            RestakingError::NetworkError => "network error"@,
            RestakingError::AuthError => "authorization failed"@,
            RestakingError::ValidationError => "validation failed"@,
            RestakingError::ParseError => "malformed statistics"@,
            RestakingError::UnsupportedOperation => "unsupported operation"@,
            RestakingError::AllocationError(AllocationFault::NoProtocols) => "allocation failed: no protocols"@,
            RestakingError::AllocationError(AllocationFault::ZeroTotalAmount) => "allocation failed: zero total amount"@,
            RestakingError::AllocationError(AllocationFault::DuplicateProtocol) => "allocation failed: duplicate protocol"@,
        }
    }
}

} // verus!
