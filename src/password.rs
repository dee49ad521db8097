//! One-way salted hashing of passwords and their verification, through argon2.

use vstd::prelude::*;

verus! {

#[verifier::external_type_specification]
#[verifier::external_body]
pub struct ExHashError(argon2::password_hash::Error);

/// Whether argon2 accepts `password` against the PHC-format `digest`. A digest
/// that does not parse is not accepted.
pub uninterp spec fn password_matches(password: Seq<char>, digest: Seq<char>) -> bool;

/// Relies on argon2's `Argon2::default().hash_password`, with a 16-byte salt drawn
/// by rand_core's `OsRng::try_fill_bytes` and encoded by `SaltString::encode_b64`,
/// written as a PHC string that embeds the salt and the parameters; verifying the
/// same password against it succeeds. A failure of the OS randomness source is
/// `Error::Crypto`, not a panic.
#[verifier::external_body]
pub(crate) fn hash_password(password: &str) -> (r: Result<String, argon2::password_hash::Error>)
    ensures
        r is Ok ==> password_matches(password@, r->Ok_0@),
{
    let mut bytes = [0u8; 16];
    let rng = &mut argon2::password_hash::rand_core::OsRng;
    if argon2::password_hash::rand_core::RngCore::try_fill_bytes(rng, &mut bytes).is_err() {
        return Err(argon2::password_hash::Error::Crypto);
    }
    let salt = argon2::password_hash::SaltString::encode_b64(&bytes)?;
    argon2::PasswordHasher::hash_password(&argon2::Argon2::default(), password.as_bytes(), &salt).map(|h| h.to_string())
}

/// Relies on argon2's `PasswordHash::new` and `Argon2::default().verify_password`,
/// which takes its parameters from the digest: whether the password matches.
#[verifier::external_body]
pub(crate) fn verify_password(password: &str, digest: &str) -> (r: bool)
    ensures
        r == password_matches(password@, digest@),
{
    match argon2::PasswordHash::new(digest) {
        Ok(parsed) => argon2::PasswordVerifier::verify_password(&argon2::Argon2::default(), password.as_bytes(), &parsed)
            .is_ok(),
        Err(_) => false,
    }
}

} // verus!
