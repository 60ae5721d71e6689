//! Salting, hashing and verification of passwords.
//!
//! A password is never stored: what the cache keeps is a `(hash, salt)` pair,
//! where the hash is a slow password-based key derivation over the password
//! and the salt. The same `(password, salt)` always yields the same hash, so
//! the pair can later test a supplied password without retaining it.

use vstd::prelude::*;

verus! {

/// Width in bytes of a salt and of a derived hash (the SHA-512 output width).
pub const CREDENTIAL_LEN: usize = 64;

/// Fixed iteration count of the password-based key derivation.
pub const N_ITER: u32 = 831;

/// The key that PBKDF2-HMAC-SHA512 with `N_ITER` iterations derives from a
/// password and a salt at `CREDENTIAL_LEN` bytes of output. The derivation is
/// a fixed function of the password's characters and the salt alone; its
/// value is left uninterpreted.
pub uninterp spec fn derived_key(password: Seq<char>, salt: Seq<u8>) -> Seq<u8>;

/// A stored `(hash, salt)` verifier accepts a password exactly when the hash
/// is the key derived from that password and that salt.
pub open spec fn verifier_accepts(hash: Seq<u8>, salt: Seq<u8>, password: Seq<char>) -> bool {
    hash == derived_key(password, salt)
}

#[verifier::external_type_specification]
#[verifier::external_body]
pub struct ExUnspecified(ring::error::Unspecified);

/// Relies on ring's `SystemRandom::fill` to produce the salt. Nothing is
/// assumed of the random bytes themselves; the call fails only when the
/// system's entropy source fails, which is fatal and not retryable.
#[verifier::external_body]
pub fn generate_salt() -> (r: Result<[u8; CREDENTIAL_LEN], ring::error::Unspecified>) {
    let rng = ring::rand::SystemRandom::new();
    let mut salt = [0u8; CREDENTIAL_LEN];
    match ring::rand::SecureRandom::fill(&rng, &mut salt) {
        Ok(()) => Ok(salt),
        Err(e) => Err(e),
    }
}

/// Relies on ring's `pbkdf2::derive` with PBKDF2-HMAC-SHA512 and `N_ITER`
/// iterations: it fills the output with the derived key, a deterministic
/// function of the password and the salt.
#[verifier::external_body]
pub fn encrypt(password: &str, salt: &[u8]) -> (r: [u8; CREDENTIAL_LEN])
    ensures
        r@ == derived_key(password@, salt@),
{
    let n_iter = core::num::NonZeroU32::new(N_ITER).unwrap();
    let mut hash = [0u8; CREDENTIAL_LEN];
    ring::pbkdf2::derive(
        ring::pbkdf2::PBKDF2_HMAC_SHA512,
        n_iter,
        salt,
        password.as_bytes(),
        &mut hash,
    );
    hash
}

/// Relies on ring's `pbkdf2::verify` with the same algorithm and iteration
/// count as [`encrypt`]: it recomputes the derivation over the supplied
/// password and salt at the hash's own width and compares in constant time,
/// reporting success exactly when the recomputed key equals `hash`. (Its
/// other failure causes — an empty previously-derived value, or inputs beyond
/// the digest's astronomical size limit — cannot arise for a 64-byte hash and
/// values held in memory.)
#[verifier::external_body]
pub fn verify(
    password: &str,
    hash: &[u8; CREDENTIAL_LEN],
    salt: &[u8; CREDENTIAL_LEN],
) -> (r: bool)
    ensures
        r == verifier_accepts(hash@, salt@, password@),
{
    let n_iter = core::num::NonZeroU32::new(N_ITER).unwrap();
    ring::pbkdf2::verify(
        ring::pbkdf2::PBKDF2_HMAC_SHA512,
        n_iter,
        salt,
        password.as_bytes(),
        hash,
    )
    .is_ok()
}

/// Law: a verifier derived from a password accepts that same password,
/// whatever the salt — the round trip of [`encrypt`] followed by [`verify`]
/// succeeds.
pub proof fn lemma_derive_then_verify(password: Seq<char>, salt: Seq<u8>)
    ensures
        verifier_accepts(derived_key(password, salt), salt, password),
{
}

} // verus!
