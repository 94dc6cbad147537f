//! Password hashing: Argon2id with a fresh random salt for every digest.
//!
//! A digest is a PHC string: it names the algorithm, its version, its cost
//! parameters and the salt, so that nothing else has to be stored to check a
//! password against it.

use crate::common::errors::AppError;
use vstd::prelude::*;

verus! {

#[verifier::external_type_specification]
#[verifier::external_body]
pub struct ExHashingError(argon2::password_hash::Error);

/// Whether `digest` is a digest of `password`: `PasswordHash::new` reads the
/// digest as a PHC string, and `Argon2::default().verify_password` accepts
/// the password for it. The digest then names a variant of Argon2 with sound
/// parameters, and hashing the password with them and with the digest's
/// salt gives the digest's output, compared in constant time. A text that
/// is no PHC string is a digest of nothing.
pub uninterp spec fn password_matches(password: Seq<char>, digest: Seq<char>) -> bool;

/// The longest password, in characters, that is hashed whatever it holds:
/// Argon2 takes up to `0xFFFF_FFFF` bytes, and a character has at most
/// four.
pub const MAX_PASSWORD_CHARS: usize = 0x3FFF_FFFF;

/// `SaltString::generate` with the operating system's random generator
/// (`OsRng`), then `Argon2::default().hash_password` on the password's
/// bytes with that salt, printed as a PHC string.
///
/// A digest made here matches the password. A generated salt has 16
/// bytes, so the hashing fails only for a password of more than
/// `0xFFFF_FFFF` bytes. The call panics where the operating system cannot
/// supply random bytes.
#[verifier::external_body]
fn argon2_hash(password: &str) -> (digest: Result<String, argon2::password_hash::Error>)
    ensures
        digest matches Ok(text) ==> password_matches(password@, text@),
        password@.len() <= MAX_PASSWORD_CHARS ==> digest is Ok,
{
    let salt =
        argon2::password_hash::SaltString::generate(&mut argon2::password_hash::rand_core::OsRng);
    argon2::PasswordHasher::hash_password(&argon2::Argon2::default(), password.as_bytes(), &salt)
        .map(|hash| hash.to_string())
}

/// `PasswordHash::new` on the digest, then
/// `Argon2::default().verify_password` on the password's bytes. `false`
/// where the digest does not parse or the password is not accepted.
#[verifier::external_body]
fn argon2_verify(password: &str, digest: &str) -> (accepted: bool)
    ensures
        accepted == password_matches(password@, digest@),
{
    match argon2::PasswordHash::new(digest) {
        Ok(parsed) => argon2::PasswordVerifier::verify_password(
            &argon2::Argon2::default(),
            password.as_bytes(),
            &parsed,
        ).is_ok(),
        Err(_) => false,
    }
}

/// What a hashing attempt comes to: the digest, or
/// `PasswordHashingFailed`.
pub open spec fn hashing_decided(attempt: Result<String, argon2::password_hash::Error>) -> Result<
    String,
    AppError,
> {
    match attempt {
        Ok(text) => Ok(text),
        Err(_) => Err(AppError::PasswordHashingFailed),
    }
}

pub struct PasswordUtils;

impl PasswordUtils {
    /// What a hashing attempt becomes: the digest, or
    /// `PasswordHashingFailed`.
    pub fn hashed(attempt: Result<String, argon2::password_hash::Error>) -> (digest: Result<
        String,
        AppError,
    >)
        ensures
            digest == hashing_decided(attempt),
    {
        match attempt {
            Ok(text) => Ok(text),
            Err(_) => Err(AppError::PasswordHashingFailed),
        }
    }

    /// Hashes a password with Argon2id, its default cost parameters and a
    /// fresh random salt.
    ///
    /// The digest matches the password it was made from. No password is
    /// refused for its content, and none for its length up to
    /// `MAX_PASSWORD_CHARS`; the only failure is `PasswordHashingFailed`.
    pub fn hash_password(password: &str) -> (digest: Result<String, AppError>)
        ensures
            match digest {
                Ok(d) => password_matches(password@, d@),
                Err(e) => e == AppError::PasswordHashingFailed && password@.len()
                    > MAX_PASSWORD_CHARS,
            },
    {
        Self::hashed(argon2_hash(password))
    }

    /// Whether `hash` is a digest of `password`. A malformed digest, or one
    /// of another scheme, gives `false`, never a failure.
    pub fn verfify_passowrd(password: &str, hash: &str) -> (accepted: bool)
        ensures
            accepted == password_matches(password@, hash@),
    {
        argon2_verify(password, hash)
    }
}

} // verus!
