//! The error taxonomy of an authentication attempt, and the shape of an
//! upstream exchange's result.

use vstd::prelude::*;

verus! {

/// Why an authentication attempt did not succeed.
#[derive(Clone, Copy, Debug, PartialEq, Eq, Structural)]
pub enum AuthError {
    /// The identity provider explicitly rejected the credentials. With
    /// `stale` set, the rejection came after the stored verifier had accepted
    /// the password: the cached credential appears stale relative to the
    /// upstream password (changed out-of-band), an inconsistency the cache
    /// cannot self-heal. Not retried automatically.
    AuthFailed { stale: bool },
    /// A network or transport failure talking to an upstream; retryable
    /// later; never mutates cached state.
    TransportFailure,
    /// The upstream markup changed: an expected anti-forgery token input was
    /// absent. Fatal for the call, and not a credentials problem.
    ProtocolDrift,
    /// A local resource failed: the entropy source was exhausted or a fresh
    /// client could not be built. Fatal, and not a credentials problem.
    Internal,
}

/// What came back from one upstream HTTP exchange: the response body, or a
/// transport failure (network error or timeout) in place of any response.
#[derive(Debug)]
pub enum Fetched {
    Body(String),
    TransportFailure,
}

} // verus!
