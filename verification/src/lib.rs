//! An authenticated-session cache for a CAS-style single-sign-on portal.
//!
//! The library decides, for each request bearing a username and password,
//! whether an existing authenticated upstream session can be reused, must be
//! refreshed, or must be rejected — without ever retaining the plaintext
//! password and without forcing a full handshake on every call.
//!
//! The pieces: a credential verifier that salts, hashes and checks a password
//! ([`credential`]); a scraper for the one-time anti-forgery token on the
//! login page ([`token`]); the success-marker test on upstream responses
//! ([`text`]); per-user accounts holding a cookie-bearing session
//! ([`session`]); a store mapping user identifiers to accounts ([`store`]);
//! and the login decision protocol itself ([`login`]). Network transport is
//! left to the embedding program, which performs each request the protocol
//! asks for and hands back the response.

pub mod credential;
pub mod errors;
pub mod login;
pub mod records;
pub mod session;
pub mod store;
pub mod text;
pub mod token;
