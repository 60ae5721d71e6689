//! The login decision protocol: reuse, refresh, or reject.
//!
//! One authentication call is an attempt driven to completion against one
//! account. The attempt decides, from the stored verifier and the supplied
//! password, which exchanges with the identity provider are needed; the
//! embedding program performs each exchange over the network and hands the
//! response back. Three branches exist:
//!
//! - no verifier stored yet: fetch a token and authenticate on the account's
//!   session; on success, store a verifier derived from the password;
//! - the verifier accepts the password: probe the cached session first; a
//!   live probe finishes the call at once, and a failed probe falls through
//!   to one full re-authentication on the same session (the failure is
//!   attributed to session expiry, never to the credentials);
//! - the verifier rejects the password: authenticate on a fresh candidate
//!   session, never with the cached session's cookies; commit the candidate
//!   and a re-derived verifier only on success, and discard it otherwise, so
//!   a wrong password can never corrupt a previously working account.

use vstd::prelude::*;

use crate::credential::encrypt;
use crate::credential::generate_salt;
use crate::credential::verifier_accepts;
use crate::credential::verify;
use crate::errors::AuthError;
use crate::errors::Fetched;
use crate::session::Account;
use crate::session::Session;
use crate::session::new_session;
use crate::session::verifier_view;
use crate::text::response_indicates_success;
use crate::text::spec_contains;
use crate::text::success_marker;
use crate::token::extract_token;
use crate::token::input_fields_of;
use crate::token::option_view;
use crate::token::spec_token_of;

verus! {

/// Which of the three decision branches an attempt runs.
#[derive(Clone, Copy, Debug, PartialEq, Eq, Structural)]
pub enum Branch {
    /// No verifier stored yet: first-ever login for this identifier.
    FirstLogin,
    /// The stored verifier accepts the password: try the cached session.
    VerifiedReuse,
    /// The stored verifier rejects the password: authenticate on a fresh
    /// candidate session, commit only on success.
    Rotation,
}

/// The exchange an attempt waits for next, or `Finished`.
#[derive(Clone, Copy, Debug, PartialEq, Eq, Structural)]
pub enum Phase {
    /// Probe the account's session: a cheap POST carrying only the cookies.
    Probe,
    /// Fetch the login page (on the candidate session in the rotation branch,
    /// on the account's session otherwise) to obtain the anti-forgery token.
    FetchToken,
    /// Authenticate: POST the credentials and the token on that same session.
    Authenticate,
    /// The attempt is complete; its outcome is set.
    Finished,
}

/// One authentication attempt in flight. It lives for a single call: the
/// password it carries never outlives the attempt.
pub struct LoginAttempt {
    pub branch: Branch,
    pub phase: Phase,
    pub password: String,
    pub candidate: Option<Session>,
    pub outcome: Option<Result<(), AuthError>>,
}

impl LoginAttempt {
    /// The attempt's phases and fields agree: the outcome exists exactly when
    /// the attempt is finished, only the verified-reuse branch ever probes,
    /// and a candidate session exists exactly while a rotation is undecided.
    pub open spec fn wf(self) -> bool {
        &&& (self.phase == Phase::Finished <==> self.outcome is Some)
        &&& (self.phase == Phase::Probe ==> self.branch == Branch::VerifiedReuse)
        &&& (self.candidate is Some <==> self.branch == Branch::Rotation && self.phase
            != Phase::Finished)
    }
}

/// The branch for a stored verifier and a supplied password: first login when
/// no verifier exists, verified reuse when it accepts the password, rotation
/// when it rejects it.
pub open spec fn spec_branch(hash_salt: Option<(Seq<u8>, Seq<u8>)>, password: Seq<char>) -> Branch {
    match hash_salt {
        None => Branch::FirstLogin,
        Some(hs) => if verifier_accepts(hs.0, hs.1, password) {
            Branch::VerifiedReuse
        } else {
            Branch::Rotation
        },
    }
}

/// The first exchange of each branch: only verified reuse may touch the
/// cached session's authenticated state with a probe; both other branches
/// start with the token fetch of a full authentication.
pub open spec fn spec_initial_phase(branch: Branch) -> Phase {
    match branch {
        Branch::VerifiedReuse => Phase::Probe,
        Branch::FirstLogin => Phase::FetchToken,
        Branch::Rotation => Phase::FetchToken,
    }
}

/// An upstream exchange succeeded when a body came back bearing the success
/// marker; a transport failure never counts as success.
pub open spec fn exchange_succeeded(resp: Fetched) -> bool {
    match resp {
        Fetched::Body(t) => spec_contains(t@, success_marker()),
        Fetched::TransportFailure => false,
    }
}

/// Begins an authentication attempt against an account. The branch follows
/// [`spec_branch`]; the rotation branch builds its fresh candidate session
/// here and is the only way the call can fail (a fatal local failure, before
/// any exchange).
pub fn begin_attempt(account: &Account, password: &str) -> (r: Result<LoginAttempt, AuthError>)
    ensures
        r matches Ok(a) ==> {
            &&& a.wf()
            &&& a.branch == spec_branch(verifier_view(account.hash_salt), password@)
            &&& a.phase == spec_initial_phase(a.branch)
            &&& a.password@ == password@
            &&& a.outcome is None
            &&& (a.candidate matches Some(c) ==> !c.authenticated)
        },
        r matches Err(e) ==> e == AuthError::Internal && spec_branch(
            verifier_view(account.hash_salt),
            password@,
        ) == Branch::Rotation,
        spec_branch(verifier_view(account.hash_salt), password@) != Branch::Rotation ==> r is Ok,
{
    match &account.hash_salt {
        None => Ok(
            LoginAttempt {
                branch: Branch::FirstLogin,
                phase: Phase::FetchToken,
                password: password.to_owned(),
                candidate: None,
                outcome: None,
            },
        ),
        Some(hs) => {
            if verify(password, &hs.0, &hs.1) {
                Ok(
                    LoginAttempt {
                        branch: Branch::VerifiedReuse,
                        phase: Phase::Probe,
                        password: password.to_owned(),
                        candidate: None,
                        outcome: None,
                    },
                )
            } else {
                match new_session() {
                    Some(candidate) => Ok(
                        LoginAttempt {
                            branch: Branch::Rotation,
                            phase: Phase::FetchToken,
                            password: password.to_owned(),
                            candidate: Some(candidate),
                            outcome: None,
                        },
                    ),
                    None => Err(AuthError::Internal),
                }
            }
        },
    }
}

/// The attempt after the probe response: a live probe finishes the call
/// successfully at once; anything else — stale session or transport failure —
/// falls through to a full re-authentication on the same session.
pub open spec fn spec_after_probe(a: LoginAttempt, ok: bool) -> LoginAttempt {
    if ok {
        LoginAttempt { phase: Phase::Finished, outcome: Some(Ok(())), ..a }
    } else {
        LoginAttempt { phase: Phase::FetchToken, ..a }
    }
}

/// Feeds the probe response to the attempt. A failed probe is never reported
/// as a credential failure: the attempt falls through to the token fetch.
pub fn on_probe_response(a: &mut LoginAttempt, resp: &Fetched)
    requires
        old(a).wf(),
        old(a).phase == Phase::Probe,
    ensures
        *final(a) == spec_after_probe(*old(a), exchange_succeeded(*resp)),
        final(a).wf(),
{
    let ok = match resp {
        Fetched::Body(t) => response_indicates_success(t.as_str()),
        Fetched::TransportFailure => false,
    };
    if ok {
        a.phase = Phase::Finished;
        a.outcome = Some(Ok(()));
    } else {
        a.phase = Phase::FetchToken;
    }
}

/// The attempt after the login-page response: a token moves it to the
/// authenticate exchange; a transport failure or a page without the token
/// input finishes the attempt — during the full authentication itself these
/// failures are terminal, and the markup drift is surfaced, not retried.
pub open spec fn spec_after_token(a: LoginAttempt, page: Fetched) -> LoginAttempt {
    match page {
        Fetched::TransportFailure => LoginAttempt {
            phase: Phase::Finished,
            outcome: Some(Err(AuthError::TransportFailure)),
            candidate: None,
            ..a
        },
        Fetched::Body(h) => match spec_token_of(input_fields_of(h@)) {
            Some(_) => LoginAttempt { phase: Phase::Authenticate, ..a },
            None => LoginAttempt {
                phase: Phase::Finished,
                outcome: Some(Err(AuthError::ProtocolDrift)),
                candidate: None,
                ..a
            },
        },
    }
}

/// Feeds the login-page response to the attempt and extracts the anti-forgery
/// token from it. Returns the token exactly when the attempt moves on to the
/// authenticate exchange.
pub fn on_login_page(a: &mut LoginAttempt, page: &Fetched) -> (token: Option<String>)
    requires
        old(a).wf(),
        old(a).phase == Phase::FetchToken,
    ensures
        *final(a) == spec_after_token(*old(a), *page),
        final(a).wf(),
        match *page {
            Fetched::Body(h) => option_view(token) == spec_token_of(input_fields_of(h@)),
            Fetched::TransportFailure => token is None,
        },
{
    match page {
        Fetched::TransportFailure => {
            a.phase = Phase::Finished;
            a.candidate = None;
            a.outcome = Some(Err(AuthError::TransportFailure));
            None
        },
        Fetched::Body(h) => {
            match extract_token(h.as_str()) {
                Some(token) => {
                    a.phase = Phase::Authenticate;
                    Some(token)
                },
                None => {
                    a.phase = Phase::Finished;
                    a.candidate = None;
                    a.outcome = Some(Err(AuthError::ProtocolDrift));
                    None
                },
            }
        },
    }
}

/// The outcome of the authenticate exchange. A transport failure is its own
/// error, never a credential failure. An explicit rejection is a credential
/// failure — marked stale on the verified-reuse branch, where the verifier
/// had accepted the password and the cache can no longer self-heal. On
/// success, the branches that must store a new verifier can still fail
/// locally when no salt can be drawn (`entropy_ok` false).
pub open spec fn spec_auth_outcome(branch: Branch, resp: Fetched, entropy_ok: bool) -> Result<
    (),
    AuthError,
> {
    match resp {
        Fetched::TransportFailure => Err(AuthError::TransportFailure),
        Fetched::Body(t) => if !spec_contains(t@, success_marker()) {
            Err(AuthError::AuthFailed { stale: branch == Branch::VerifiedReuse })
        } else if branch == Branch::VerifiedReuse || entropy_ok {
            Ok(())
        } else {
            Err(AuthError::Internal)
        },
    }
}

/// The attempt after the authenticate response: finished, with the outcome of
/// [`spec_auth_outcome`], the candidate session no longer held.
pub open spec fn spec_after_auth(a: LoginAttempt, resp: Fetched, entropy_ok: bool) -> LoginAttempt {
    LoginAttempt {
        phase: Phase::Finished,
        outcome: Some(spec_auth_outcome(a.branch, resp, entropy_ok)),
        candidate: None,
        ..a
    }
}

/// Feeds the authenticate response to the attempt and commits its effect on
/// the account. This is the single commit point of every branch: the
/// account's visible `(verifier, session)` pair changes here or not at all.
///
/// On anything but a success the account is left exactly as it was: a
/// transport failure, a rejection, and a local entropy failure all leave the
/// stored verifier and the cached session untouched. On success:
///
/// - first login: the account keeps its session, now marked authenticated,
///   and gains a verifier that accepts the attempt's password;
/// - verified reuse: the verifier is unchanged (the password did not change)
///   and the account keeps its session, now marked authenticated;
/// - rotation: the candidate session replaces the cached one, and the
///   verifier is replaced by one accepting the new password — the only path
///   that ever rotates the stored verifier.
pub fn on_auth_response(a: &mut LoginAttempt, account: &mut Account, resp: &Fetched)
    requires
        old(a).wf(),
        old(a).phase == Phase::Authenticate,
    ensures
        final(a).wf(),
        final(a).phase == Phase::Finished,
        final(a).branch == old(a).branch,
        final(a).password == old(a).password,
        exists|entropy_ok: bool| *final(a) == spec_after_auth(*old(a), *resp, entropy_ok),
        // The attempt's outcome, case by case.
        resp is TransportFailure ==> final(a).outcome == Some(
            Result::<(), AuthError>::Err(AuthError::TransportFailure),
        ),
        (resp matches Fetched::Body(t) && !spec_contains(t@, success_marker()))
            ==> final(a).outcome == Some(
            Result::<(), AuthError>::Err(
                AuthError::AuthFailed { stale: old(a).branch == Branch::VerifiedReuse },
            ),
        ),
        exchange_succeeded(*resp) ==> final(a).outcome == Some(Result::<(), AuthError>::Ok(()))
            || (old(a).branch != Branch::VerifiedReuse && final(a).outcome == Some(
            Result::<(), AuthError>::Err(AuthError::Internal),
        )),
        exchange_succeeded(*resp) && old(a).branch == Branch::VerifiedReuse ==> final(a).outcome
            == Some(Result::<(), AuthError>::Ok(())),
        // The account: untouched unless the attempt succeeded.
        final(a).outcome != Some(Result::<(), AuthError>::Ok(()))
            ==> *final(account) == *old(account),
        // The single commit point, branch by branch.
        final(a).outcome == Some(Result::<(), AuthError>::Ok(())) ==> {
            &&& exchange_succeeded(*resp)
            &&& final(account).identifier == old(account).identifier
            &&& final(account).session.authenticated
            &&& match old(a).branch {
                Branch::FirstLogin => final(account).session.client
                    == old(account).session.client && final(account).accepts_password(
                    old(a).password@,
                ),
                Branch::VerifiedReuse => final(account).hash_salt == old(account).hash_salt
                    && final(account).session.client == old(account).session.client,
                Branch::Rotation => old(a).candidate matches Some(c)
                    && final(account).session.client == c.client
                    && final(account).accepts_password(old(a).password@),
            }
        },
{
    match resp {
        Fetched::TransportFailure => {
            a.phase = Phase::Finished;
            a.candidate = None;
            a.outcome = Some(Err(AuthError::TransportFailure));
        },
        Fetched::Body(t) => {
            if !response_indicates_success(t.as_str()) {
                let stale = a.branch == Branch::VerifiedReuse;
                a.phase = Phase::Finished;
                a.candidate = None;
                a.outcome = Some(Err(AuthError::AuthFailed { stale }));
            } else {
                match a.branch {
                    Branch::VerifiedReuse => {
                        account.session.authenticated = true;
                        a.phase = Phase::Finished;
                        a.candidate = None;
                        a.outcome = Some(Ok(()));
                        proof {
                            assert(*final(a) == spec_after_auth(*old(a), *resp, true));
                        }
                    },
                    Branch::FirstLogin => {
                        match generate_salt() {
                            Ok(salt) => {
                                let hash = encrypt(a.password.as_str(), &salt);
                                account.hash_salt = Some((hash, salt));
                                account.session.authenticated = true;
                                a.phase = Phase::Finished;
                                a.candidate = None;
                                a.outcome = Some(Ok(()));
                                proof {
                                    assert(*final(a) == spec_after_auth(*old(a), *resp, true));
                                }
                            },
                            Err(_) => {
                                a.phase = Phase::Finished;
                                a.candidate = None;
                                a.outcome = Some(Err(AuthError::Internal));
                                proof {
                                    assert(*final(a) == spec_after_auth(*old(a), *resp, false));
                                }
                            },
                        }
                    },
                    Branch::Rotation => {
                        match generate_salt() {
                            Ok(salt) => {
                                let hash = encrypt(a.password.as_str(), &salt);
                                match a.candidate.take() {
                                    Some(candidate) => {
                                        account.session = Session {
                                            client: candidate.client,
                                            authenticated: true,
                                        };
                                        account.hash_salt = Some((hash, salt));
                                        a.phase = Phase::Finished;
                                        a.outcome = Some(Ok(()));
                                        proof {
                                            assert(*final(a) == spec_after_auth(
                                                *old(a),
                                                *resp,
                                                true,
                                            ));
                                        }
                                    },
                                    None => {
                                        // Unreachable: a well-formed rotation
                                        // attempt still in flight holds its
                                        // candidate.
                                        a.phase = Phase::Finished;
                                        a.outcome = Some(Err(AuthError::Internal));
                                    },
                                }
                            },
                            Err(_) => {
                                a.phase = Phase::Finished;
                                a.candidate = None;
                                a.outcome = Some(Err(AuthError::Internal));
                                proof {
                                    assert(*final(a) == spec_after_auth(*old(a), *resp, false));
                                }
                            },
                        }
                    },
                }
            }
        },
    }
}

/// The outcome of a finished attempt.
pub fn final_outcome(a: &LoginAttempt) -> (r: Result<(), AuthError>)
    requires
        a.wf(),
        a.phase == Phase::Finished,
    ensures
        a.outcome == Some(r),
{
    match &a.outcome {
        Some(r) => *r,
        None => Err(AuthError::Internal),
    }
}

/// Law (cheap reuse): when the stored verifier accepts the supplied password,
/// the attempt begins with a probe of the cached session, and a live probe
/// finishes the call successfully at once — the token-fetch and authenticate
/// exchanges are never reached, so no credential POST is made.
pub proof fn lemma_verified_reuse_short_circuit(
    a: LoginAttempt,
    hash: Seq<u8>,
    salt: Seq<u8>,
    password: Seq<char>,
)
    requires
        verifier_accepts(hash, salt, password),
        a.wf(),
        a.branch == spec_branch(Some((hash, salt)), password),
        a.phase == spec_initial_phase(a.branch),
    ensures
        a.branch == Branch::VerifiedReuse,
        a.phase == Phase::Probe,
        spec_after_probe(a, true).phase == Phase::Finished,
        spec_after_probe(a, true).outcome == Some(Result::<(), AuthError>::Ok(())),
{
}

/// Law (self-healing probe, one fallback): a probe that does not succeed —
/// stale session or transport failure — never fails the call by itself: the
/// attempt falls through to the token fetch; a fetched token leads to exactly
/// one authenticate exchange; and every authenticate response finishes the
/// attempt, whatever it holds. So a transport failure on the probe results in
/// exactly one full authentication attempt, not a reported failure.
pub proof fn lemma_probe_failure_single_fallback(
    a: LoginAttempt,
    page: Fetched,
    resp: Fetched,
    entropy_ok: bool,
)
    requires
        a.wf(),
        a.phase == Phase::Probe,
    ensures
        spec_after_probe(a, false).phase == Phase::FetchToken,
        (page matches Fetched::Body(h) && spec_token_of(input_fields_of(h@)) is Some)
            ==> spec_after_token(spec_after_probe(a, false), page).phase == Phase::Authenticate
            && spec_after_auth(
            spec_after_token(spec_after_probe(a, false), page),
            resp,
            entropy_ok,
        ).phase == Phase::Finished,
        (page matches Fetched::Body(h) && spec_token_of(input_fields_of(h@)) is None)
            ==> spec_after_token(spec_after_probe(a, false), page).phase == Phase::Finished,
        page is TransportFailure ==> spec_after_token(spec_after_probe(a, false), page).phase
            == Phase::Finished,
{
}

} // verus!
