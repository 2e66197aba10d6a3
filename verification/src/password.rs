//! Salted password hashes, computed and checked by Argon2.

use vstd::prelude::*;

verus! {

/// `password_hash`'s salt in its encoded form, carried through as it is.
#[verifier::external_type_specification]
#[verifier::external_body]
pub struct ExSaltString(argon2::password_hash::SaltString);

/// `password_hash`'s error, carried through as it is.
#[verifier::external_type_specification]
#[verifier::external_body]
pub struct ExHashError(argon2::password_hash::Error);

/// Whether Argon2, with its default parameters, accepts `password` for the
/// encoded hash `encoded`. An `encoded` that is no well-formed hash accepts
/// no password.
pub uninterp spec fn password_matches(password: Seq<char>, encoded: Seq<char>) -> bool;

/// Calls `SaltString::generate` on the thread's random number generator.
/// Nothing is claimed of the salt: each call draws a new one.
#[verifier::external_body]
fn fresh_salt() -> (r: argon2::password_hash::SaltString) {
    argon2::password_hash::SaltString::generate(rand::thread_rng())
}

/// Calls `PasswordHash::generate` with the default Argon2 and writes the
/// hash in its encoded form. Trusted: whatever the salt, a hash that is
/// returned accepts the password it was made from.
#[verifier::external_body]
fn argon2_hash(password: &str, salt: &argon2::password_hash::SaltString) -> (r: Result<
    String,
    argon2::password_hash::Error,
>)
    ensures
        r is Ok ==> password_matches(password@, r->Ok_0@),
{
    match argon2::PasswordHash::generate(argon2::Argon2::default(), password, salt) {
        Ok(hash) => Ok(hash.to_string()),
        Err(e) => Err(e),
    }
}

/// Parses `encoded` with `PasswordHash::new` and calls the default Argon2's
/// `verify_password` on it. Trusted: the outcome is a function of the two
/// texts, named `password_matches`; a parse failure counts as no match.
#[verifier::external_body]
fn argon2_verify(password: &str, encoded: &str) -> (ok: bool)
    ensures
        ok == password_matches(password@, encoded@),
{
    match argon2::PasswordHash::new(encoded) {
        Ok(parsed) => argon2::PasswordVerifier::verify_password(
            &argon2::Argon2::default(),
            password.as_bytes(),
            &parsed,
        ).is_ok(),
        Err(_) => false,
    }
}

/// The text that `password_hash` gives for one of its errors (its
/// `Display`). Nothing is claimed of it.
#[verifier::external_body]
fn hash_error_text(e: &argon2::password_hash::Error) -> (r: String) {
    e.to_string()
}

/// What is reported when hashing fails, given the hasher's own text.
pub open spec fn hash_failure_text(reason: Seq<char>) -> Seq<char> {
    "Failed to generate password hash "@ + reason
}

/// The report of a hashing failure.
pub fn hash_failure(reason: &str) -> (r: String)
    ensures
        r@ == hash_failure_text(reason@),
{
    String::from_str("Failed to generate password hash ").concat(reason)
}

/// Hashes `password` under a salt drawn for this call. A hash that is
/// returned accepts `password`; where the hasher fails, its reason is
/// reported.
pub fn hash_password(password: String) -> (r: Result<String, String>)
    ensures
        match r {
            Ok(encoded) => password_matches(password@, encoded@),
            Err(report) => exists|reason: Seq<char>| report@ == #[trigger] hash_failure_text(reason),
        },
{
    let salt = fresh_salt();
    match argon2_hash(password.as_str(), &salt) {
        Ok(encoded) => Ok(encoded),
        Err(e) => {
            let reason: String = hash_error_text(&e);
            let report: String = hash_failure(reason.as_str());
            assert(report@ == hash_failure_text(reason@));
            Err(report)
        },
    }
}

/// Whether `encoded` accepts `password`. A malformed `encoded` accepts
/// nothing.
pub fn verify_password(password: &str, encoded: &str) -> (ok: bool)
    ensures
        ok == password_matches(password@, encoded@),
{
    argon2_verify(password, encoded)
}

} // verus!
