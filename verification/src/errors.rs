use vstd::prelude::*;

verus! {

/// Failures while obtaining an access token for the service identity.
#[derive(Clone, Copy, Debug, PartialEq, Eq, Structural)]
pub enum AuthError {
    /// The private key material is malformed and cannot be parsed.
    BadCredential,
    /// The assertion could not be signed.
    SignFailure,
    /// The token endpoint could not be reached.
    TransportFailure,
    /// The token endpoint answered without an access token field.
    TokenMissing,
}

/// Failures while fetching the remote table.
#[derive(Clone, Copy, Debug, PartialEq, Eq, Structural)]
pub enum ReadError {
    /// The read endpoint could not be reached.
    TransportFailure,
    /// The response body is not the JSON shape the service documents.
    MalformedResponse,
}

/// Failures while mutating the remote table.
#[derive(Clone, Copy, Debug, PartialEq, Eq, Structural)]
pub enum WriteError {
    /// The mutation endpoint could not be reached.
    TransportFailure,
    /// The service answered with a non-success status.
    RejectedByService,
    /// The token was rejected; the caller should acquire a fresh one.
    Unauthorized,
    /// A caller-supplied row index is out of the valid range; nothing was sent.
    InvalidIndex,
}

} // verus!
