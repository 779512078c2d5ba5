//! Error taxonomy, one enum per pipeline stage.

use vstd::prelude::*;

verus! {

/// Failure of the token exchange.
#[derive(Clone, Copy, Debug, PartialEq, Eq, Structural)]
pub enum AuthError {
    /// The HTTP exchange itself failed (connection, timeout, non-2xx).
    TransportFailure,
    /// The reply body was not shaped as a token reply.
    MalformedReply,
    /// The reply carried an empty token list.
    EmptyTokenList,
}

/// Failure of claim extraction from the bearer token.
#[derive(Clone, Copy, Debug, PartialEq, Eq, Structural)]
pub enum ClaimError {
    /// Fewer than two dot-delimited segments in the token.
    MalformedToken,
    /// The claims segment was not valid base64.
    DecodeFailure,
    /// The decoded claims segment was not parseable JSON.
    InvalidJson,
    /// The claims object had no integer user identifier.
    MissingClaim,
}

/// Failure of reader-device resolution.
#[derive(Clone, Copy, Debug, PartialEq, Eq, Structural)]
pub enum DeviceError {
    /// The HTTP exchange itself failed.
    TransportFailure,
    /// The reply body had no device list.
    MalformedReply,
    /// No device of the reader type was present.
    NoReaderDevice,
    /// More than one device of the reader type was present.
    AmbiguousDevice,
}

/// Failure of a usage query.
#[derive(Clone, Copy, Debug, PartialEq, Eq, Structural)]
pub enum QueryError {
    /// The HTTP exchange itself failed.
    TransportFailure,
    /// The reply body did not hold a result set under the request id.
    MalformedReply,
    /// A result entry lacked a string datetime or a numeric value.
    MalformedSample,
}

/// Process-level error of the end-to-end pipeline.
#[derive(Clone, Copy, Debug, PartialEq, Eq, Structural)]
pub enum FlumeError {
    MissingClaimError,
}

impl FlumeError {
    /// Human-readable description, in place of a `Display` impl.
    pub fn message(&self) -> (r: &'static str)
        ensures
            r@ == "Missing Required Claim in JWT Error"@,
    {
        match self {
            FlumeError::MissingClaimError => "Missing Required Claim in JWT Error",
        }
    }
}

} // verus!
