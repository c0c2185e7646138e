//! Credential hashing: Argon2 with a fresh random salt, stored as a
//! self-describing PHC string.

use vstd::prelude::*;

verus! {

#[verifier::external_type_specification]
#[verifier::external_body]
pub struct ExPasswordHashError(argon2::password_hash::Error);

/// What Argon2 verification says of `candidate` against the PHC string `hash`:
/// `None` when `hash` does not parse, otherwise whether `candidate` matches.
pub uninterp spec fn argon2_verdict(hash: Seq<char>, candidate: Seq<char>) -> Option<bool>;

/// The start of a PHC string made by Argon2id.
pub open spec fn argon2id_prefix() -> Seq<char> {
    seq!['$', 'a', 'r', 'g', 'o', 'n', '2', 'i', 'd', '$']
}

/// The hash is a self-describing Argon2id PHC string: it starts with
/// `$argon2id$` and parses, whatever candidate it is checked against.
pub open spec fn is_argon2id_phc(h: Seq<char>) -> bool {
    &&& h.len() >= 10
    &&& h.subrange(0, 10) == argon2id_prefix()
    &&& forall|c: Seq<char>| #[trigger] argon2_verdict(h, c) is Some
}

/// Relies on `Argon2::default().hash_password` with a salt from
/// `SaltString::generate(OsRng)`: the PHC string it renders is
/// `$argon2id$v=19$<params>$<salt>$<hash>`, which `PasswordHash::new` parses
/// back (parsing looks at the hash text alone), and verifying the same
/// password against it succeeds. With the default parameters and a generated
/// salt its only error is a password over `MAX_PWD_LEN` (0xFFFFFFFF) bytes,
/// which a string of at most 0x3FFFFFFF characters cannot be.
#[verifier::external_body]
fn argon2_hash(password: &str) -> (r: Result<String, argon2::password_hash::Error>)
    ensures
        password@.len() <= 0x3FFF_FFFF ==> r is Ok,
        r matches Ok(h) ==> argon2_verdict(h@, password@) == Some(true),
        r matches Ok(h) ==> is_argon2id_phc(h@),
{
    let salt = argon2::password_hash::SaltString::generate(
        &mut argon2::password_hash::rand_core::OsRng,
    );
    argon2::PasswordHasher::hash_password(&argon2::Argon2::default(), password.as_bytes(), &salt)
        .map(|h| h.to_string())
}

/// Relies on `PasswordHash::new`, which fails on a string that is not a PHC
/// hash, and on `Argon2::default().verify_password`, which succeeds exactly
/// when the candidate hashes to the stored output.
#[verifier::external_body]
fn argon2_verify(hash: &str, candidate: &str) -> (r: Result<bool, argon2::password_hash::Error>)
    ensures
        r is Err <==> argon2_verdict(hash@, candidate@) is None,
        r matches Ok(b) ==> argon2_verdict(hash@, candidate@) == Some(b),
{
    let parsed = argon2::PasswordHash::new(hash)?;
    Ok(
        argon2::PasswordVerifier::verify_password(
            &argon2::Argon2::default(),
            candidate.as_bytes(),
            &parsed,
        ).is_ok(),
    )
}

/// Why a password operation failed.
#[derive(Debug, Clone, Copy, PartialEq, Eq, Structural)]
pub enum PasswordError {
    /// The hashing primitive failed.
    HashingError,
    /// The stored hash is not a well-formed PHC string.
    VerificationError,
}

/// Hashes `pure_string` with a fresh random salt. The salt is random, so only
/// this is known of a success: the result is a self-describing Argon2id PHC
/// string, and the password verifies against it.
pub fn hash_password(pure_string: &str) -> (r: Result<String, PasswordError>)
    ensures
        pure_string@.len() <= 0x3FFF_FFFF ==> r is Ok,
        r matches Ok(h) ==> argon2_verdict(h@, pure_string@) == Some(true),
        r matches Ok(h) ==> is_argon2id_phc(h@),
        r matches Err(e) ==> e == PasswordError::HashingError,
{
    match argon2_hash(pure_string) {
        Ok(h) => Ok(h),
        Err(_) => Err(PasswordError::HashingError),
    }
}

/// Checks `pure_string` against the stored hash: `Ok(false)` for a wrong
/// password, an error for a malformed hash.
pub fn verify_password(hashed_string: &str, pure_string: &str) -> (r: Result<bool, PasswordError>)
    ensures
        match argon2_verdict(hashed_string@, pure_string@) {
            None => r == Err::<bool, PasswordError>(PasswordError::VerificationError),
            Some(b) => r == Ok::<bool, PasswordError>(b),
        },
{
    match argon2_verify(hashed_string, pure_string) {
        Ok(b) => Ok(b),
        Err(_) => Err(PasswordError::VerificationError),
    }
}

} // verus!
