use rustech::credential::verify;
use rustech::errors::{AuthError, Fetched};
use rustech::login::{
    begin_attempt, final_outcome, on_auth_response, on_login_page, on_probe_response, Branch,
    Phase,
};
use rustech::session::Account;
use rustech::store::SessionStore;

const LOGIN_PAGE: &str =
    "<html><form><input type=\"hidden\" name=\"execution\" value=\"e1s1\"/></form></html>";
const SUCCESS_BODY: &str = "<html><body>Log In Successful</body></html>";
const REJECT_BODY: &str = "<html><body>Invalid credentials.</body></html>";

fn body(s: &str) -> Fetched {
    Fetched::Body(s.to_string())
}

/// Drives a successful first-ever login for `password` against the account.
fn first_login(account: &mut Account, password: &str) {
    let mut attempt = begin_attempt(account, password).unwrap();
    assert_eq!(attempt.branch, Branch::FirstLogin);
    assert_eq!(attempt.phase, Phase::FetchToken);
    let token = on_login_page(&mut attempt, &body(LOGIN_PAGE));
    assert_eq!(token.as_deref(), Some("e1s1"));
    assert_eq!(attempt.phase, Phase::Authenticate);
    on_auth_response(&mut attempt, account, &body(SUCCESS_BODY));
    assert_eq!(final_outcome(&attempt), Ok(()));
}

#[test]
fn first_login_stores_verifier() {
    let mut store = SessionStore::new();
    let i = store.get_or_create("alice").unwrap();
    let account = store.account_mut(i);
    first_login(account, "pw1");
    let (hash, salt) = account.hash_salt.as_ref().unwrap();
    assert!(verify("pw1", hash, salt));
    assert!(!verify("pw2", hash, salt));
    assert!(account.session.authenticated);
}

#[test]
fn first_login_rejected_leaves_no_verifier() {
    let mut store = SessionStore::new();
    let i = store.get_or_create("alice").unwrap();
    let account = store.account_mut(i);
    let mut attempt = begin_attempt(account, "pw1").unwrap();
    let _ = on_login_page(&mut attempt, &body(LOGIN_PAGE));
    on_auth_response(&mut attempt, account, &body(REJECT_BODY));
    assert_eq!(final_outcome(&attempt), Err(AuthError::AuthFailed { stale: false }));
    assert!(account.hash_salt.is_none());
    assert!(!account.session.authenticated);
}

#[test]
fn cached_login_skips_authentication() {
    let mut store = SessionStore::new();
    let i = store.get_or_create("alice").unwrap();
    let account = store.account_mut(i);
    first_login(account, "pw1");
    // Second call with the same password: one probe, no token fetch, no
    // authenticate POST.
    let mut attempt = begin_attempt(account, "pw1").unwrap();
    assert_eq!(attempt.branch, Branch::VerifiedReuse);
    assert_eq!(attempt.phase, Phase::Probe);
    on_probe_response(&mut attempt, &body(SUCCESS_BODY));
    assert_eq!(attempt.phase, Phase::Finished);
    assert_eq!(final_outcome(&attempt), Ok(()));
}

#[test]
fn expired_session_reauthenticates_in_place() {
    let mut store = SessionStore::new();
    let i = store.get_or_create("alice").unwrap();
    let account = store.account_mut(i);
    first_login(account, "pw1");
    let stored = account.hash_salt.unwrap();
    // The probe finds the session expired; the same session re-authenticates,
    // and the verifier is unchanged (the password did not change).
    let mut attempt = begin_attempt(account, "pw1").unwrap();
    on_probe_response(&mut attempt, &body(REJECT_BODY));
    assert_eq!(attempt.phase, Phase::FetchToken);
    let token = on_login_page(&mut attempt, &body(LOGIN_PAGE));
    assert!(token.is_some());
    on_auth_response(&mut attempt, account, &body(SUCCESS_BODY));
    assert_eq!(final_outcome(&attempt), Ok(()));
    assert_eq!(account.hash_salt.unwrap().0, stored.0);
    assert_eq!(account.hash_salt.unwrap().1, stored.1);
}

#[test]
fn probe_transport_failure_falls_back_once() {
    let mut store = SessionStore::new();
    let i = store.get_or_create("alice").unwrap();
    let account = store.account_mut(i);
    first_login(account, "pw1");
    // A transport failure on the probe is not a failed login: exactly one
    // full authentication follows, and the attempt is then finished.
    let mut attempt = begin_attempt(account, "pw1").unwrap();
    assert_eq!(attempt.phase, Phase::Probe);
    on_probe_response(&mut attempt, &Fetched::TransportFailure);
    assert_eq!(attempt.phase, Phase::FetchToken);
    let token = on_login_page(&mut attempt, &body(LOGIN_PAGE));
    assert!(token.is_some());
    assert_eq!(attempt.phase, Phase::Authenticate);
    on_auth_response(&mut attempt, account, &body(SUCCESS_BODY));
    assert_eq!(attempt.phase, Phase::Finished);
    assert_eq!(final_outcome(&attempt), Ok(()));
}

#[test]
fn stale_credential_reported_distinctly() {
    let mut store = SessionStore::new();
    let i = store.get_or_create("alice").unwrap();
    let account = store.account_mut(i);
    first_login(account, "pw1");
    let stored = account.hash_salt.unwrap();
    // The verifier accepts the password, but the upstream rejects the
    // re-authentication: the cached credential is stale, a harder failure.
    let mut attempt = begin_attempt(account, "pw1").unwrap();
    on_probe_response(&mut attempt, &body(REJECT_BODY));
    let _ = on_login_page(&mut attempt, &body(LOGIN_PAGE));
    on_auth_response(&mut attempt, account, &body(REJECT_BODY));
    assert_eq!(final_outcome(&attempt), Err(AuthError::AuthFailed { stale: true }));
    // The verifier is not auto-cleared.
    assert_eq!(account.hash_salt.unwrap().0, stored.0);
}

#[test]
fn rejected_rotation_preserves_account() {
    let mut store = SessionStore::new();
    let i = store.get_or_create("alice").unwrap();
    let account = store.account_mut(i);
    first_login(account, "pw1");
    let stored = account.hash_salt.unwrap();
    // A wrong password runs on a fresh candidate session and commits nothing.
    let mut attempt = begin_attempt(account, "wrong").unwrap();
    assert_eq!(attempt.branch, Branch::Rotation);
    assert_eq!(attempt.phase, Phase::FetchToken);
    let _ = on_login_page(&mut attempt, &body(LOGIN_PAGE));
    on_auth_response(&mut attempt, account, &body(REJECT_BODY));
    assert_eq!(final_outcome(&attempt), Err(AuthError::AuthFailed { stale: false }));
    assert_eq!(account.hash_salt.unwrap().0, stored.0);
    assert_eq!(account.hash_salt.unwrap().1, stored.1);
    assert!(account.session.authenticated);
    // A later call with the original password still takes the cheap path.
    let attempt = begin_attempt(account, "pw1").unwrap();
    assert_eq!(attempt.branch, Branch::VerifiedReuse);
    assert_eq!(attempt.phase, Phase::Probe);
}

#[test]
fn rotation_replaces_verifier() {
    let mut store = SessionStore::new();
    let i = store.get_or_create("alice").unwrap();
    let account = store.account_mut(i);
    first_login(account, "pw1");
    // The password rotated upstream and the caller supplies the new one: the
    // candidate session and a verifier for the new password are committed.
    let mut attempt = begin_attempt(account, "pw2").unwrap();
    assert_eq!(attempt.branch, Branch::Rotation);
    let _ = on_login_page(&mut attempt, &body(LOGIN_PAGE));
    on_auth_response(&mut attempt, account, &body(SUCCESS_BODY));
    assert_eq!(final_outcome(&attempt), Ok(()));
    let (hash, salt) = account.hash_salt.as_ref().unwrap();
    assert!(verify("pw2", hash, salt));
    assert!(!verify("pw1", hash, salt));
    assert!(account.session.authenticated);
}

#[test]
fn token_fetch_transport_failure_is_terminal() {
    let mut store = SessionStore::new();
    let i = store.get_or_create("alice").unwrap();
    let account = store.account_mut(i);
    let stored = account.hash_salt;
    let mut attempt = begin_attempt(account, "pw1").unwrap();
    let token = on_login_page(&mut attempt, &Fetched::TransportFailure);
    assert_eq!(token, None);
    assert_eq!(attempt.phase, Phase::Finished);
    assert_eq!(final_outcome(&attempt), Err(AuthError::TransportFailure));
    assert_eq!(account.hash_salt.is_none(), stored.is_none());
}

#[test]
fn missing_token_is_protocol_drift() {
    let mut store = SessionStore::new();
    let i = store.get_or_create("alice").unwrap();
    let account = store.account_mut(i);
    let mut attempt = begin_attempt(account, "pw1").unwrap();
    let token = on_login_page(&mut attempt, &body("<html><form></form></html>"));
    assert_eq!(token, None);
    assert_eq!(final_outcome(&attempt), Err(AuthError::ProtocolDrift));
}

#[test]
fn auth_transport_failure_commits_nothing() {
    let mut store = SessionStore::new();
    let i = store.get_or_create("alice").unwrap();
    let account = store.account_mut(i);
    first_login(account, "pw1");
    let stored = account.hash_salt.unwrap();
    let mut attempt = begin_attempt(account, "pw2").unwrap();
    let _ = on_login_page(&mut attempt, &body(LOGIN_PAGE));
    on_auth_response(&mut attempt, account, &Fetched::TransportFailure);
    assert_eq!(final_outcome(&attempt), Err(AuthError::TransportFailure));
    // A timeout never records a verifier rotation or a session replacement.
    assert_eq!(account.hash_salt.unwrap().0, stored.0);
    assert!(verify("pw1", &account.hash_salt.unwrap().0, &account.hash_salt.unwrap().1));
}
