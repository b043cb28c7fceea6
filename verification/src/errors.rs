//! Error taxonomy of the client: transport errors, response-shape errors, and
//! domain errors from login and connection resolution.

use vstd::prelude::*;

verus! {

/// Everything that can go wrong when talking to the sharing service.
///
/// Transport failures carry the transport's own description; response-shape
/// failures (non-success status, unreadable body) are one `InvalidResponse`
/// kind carrying diagnostic text; the remaining variants are domain errors.
#[derive(Debug, Clone, PartialEq)]
pub enum LibreLinkUpError {
    /// A network or HTTP-layer failure, described by the transport.
    Http(String),
    /// The service rejected the account credentials.
    BadCredentials,
    /// The account is temporarily locked; the payload is the wait in seconds.
    AccountLocked(i32),
    /// The account must complete a verification step; the payload names the
    /// step's component.
    AdditionalActionRequired(String),
    /// No region is known under the given code; the payloads are the code and
    /// the known codes.
    RegionNotFound(String, String),
    /// No followed patient matches the given name.
    ConnectionNotFound(String),
    /// The caller-supplied connection selector returned nothing.
    ConnectionFunctionFailed,
    /// The account follows no patients.
    NoConnections,
    /// Authentication could not be attempted; the payload says why.
    AuthFailed(String),
    /// A value could not be serialized or deserialized.
    SerializationError(String),
    /// The service answered with a non-success status or an unreadable body;
    /// the payload is the diagnostic text.
    InvalidResponse(String),
}

} // verus!
