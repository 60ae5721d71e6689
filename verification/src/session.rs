//! Sessions and per-user accounts.
//!
//! A session is an opaque authenticated connection to the identity provider:
//! an HTTP client whose cookie jar carries the authenticated state. The
//! library never looks inside the client; it only tracks, alongside it,
//! whether a credential authentication has ever succeeded on it. An account
//! ties one user identifier to its optional `(hash, salt)` credential
//! verifier and the session it exclusively owns.

use vstd::prelude::*;

use crate::credential::CREDENTIAL_LEN;
use crate::credential::verifier_accepts;
use crate::errors::AuthError;

verus! {

#[verifier::external_type_specification]
#[verifier::external_body]
pub struct ExClient(reqwest::Client);

#[verifier::external_type_specification]
#[verifier::external_body]
pub struct ExReqwestError(reqwest::Error);

/// Browser identification sent by every session's requests.
pub const USER_AGENT: &'static str =
    "Mozilla/5.0 (Windows NT 10.0; Win64; x64; rv:89.0) Gecko/20100101 Firefox/89.0";

/// Upstream timeout carried by every request of a session; a request that
/// runs over it fails as a transport failure, never as a rejection.
pub const REQUEST_TIMEOUT_SECS: u64 = 30;

/// A connection to the identity provider: a cookie-bearing HTTP client, plus
/// whether a credential authentication has succeeded on it since it was
/// built. A probe can only find a session live if it was authenticated once;
/// a fresh session never probes successfully.
pub struct Session {
    pub client: reqwest::Client,
    pub authenticated: bool,
}

/// Relies on reqwest's `ClientBuilder`: builds a client with an empty cookie
/// jar, the fixed user agent, and the fixed per-request timeout. Fails only
/// when the client's runtime resources cannot be initialised.
#[verifier::external_body]
fn build_client() -> (r: Result<reqwest::Client, reqwest::Error>) {
    reqwest::Client::builder()
        .user_agent(USER_AGENT)
        .cookie_store(true)
        .timeout(std::time::Duration::from_secs(REQUEST_TIMEOUT_SECS))
        .build()
}

/// A fresh session: a new client with an empty cookie jar, on which no
/// authentication has succeeded yet. `None` when the client could not be
/// built, a fatal local failure.
pub fn new_session() -> (r: Option<Session>)
    ensures
        r matches Some(s) ==> !s.authenticated,
{
    match build_client() {
        Ok(client) => Some(Session { client, authenticated: false }),
        Err(_) => None,
    }
}

/// One user's cached state: the unique identifier, the optional credential
/// verifier — the `(hash, salt)` pair set by the first successful
/// authentication and replaced only on a confirmed password rotation — and
/// the session this account exclusively owns. The plaintext password is never
/// part of it.
pub struct Account {
    pub identifier: String,
    pub hash_salt: Option<([u8; CREDENTIAL_LEN], [u8; CREDENTIAL_LEN])>,
    pub session: Session,
}

/// The mathematical view of a stored `(hash, salt)` pair.
pub open spec fn verifier_view(
    hash_salt: Option<([u8; CREDENTIAL_LEN], [u8; CREDENTIAL_LEN])>,
) -> Option<(Seq<u8>, Seq<u8>)> {
    match hash_salt {
        Some(hs) => Some((hs.0@, hs.1@)),
        None => None,
    }
}

impl Account {
    /// The account's stored verifier exists and accepts this password.
    pub open spec fn accepts_password(self, password: Seq<char>) -> bool {
        match self.hash_salt {
            Some(hs) => verifier_accepts(hs.0@, hs.1@, password),
            None => false,
        }
    }

    /// A fresh account for `identifier`: no verifier yet (no authentication
    /// has ever succeeded), and a fresh session. Fails only when the session
    /// could not be built.
    pub fn new(identifier: &str) -> (r: Result<Account, AuthError>)
        ensures
            r matches Ok(a) ==> a.identifier@ == identifier@ && a.hash_salt is None
                && !a.session.authenticated,
            r matches Err(e) ==> e == AuthError::Internal,
    {
        match new_session() {
            Some(session) => Ok(
                Account { identifier: identifier.to_owned(), hash_salt: None, session },
            ),
            None => Err(AuthError::Internal),
        }
    }
}

} // verus!
