//! Checking a password against a stored Argon2 hash.
use vstd::prelude::*;
use argon2::{Argon2, PasswordHash, PasswordVerifier};

verus! {

/// Whether `password` matches `hash`, a password hash in PHC string form, as
/// `argon2` judges it: the hash parses and recomputing it from the password
/// with the parameters and salt it records gives the same output. This
/// depends on the two texts alone.
pub uninterp spec fn password_matches(password: Seq<char>, hash: Seq<char>) -> bool;

/// `argon2::PasswordHash::new` on the stored hash followed by
/// `Argon2::verify_password`; a hash that does not parse matches nothing.
/// The contract claims that the answer is the one named `password_matches`.
#[verifier::external_body]
pub(crate) fn check_password(password: &str, hash: &str) -> (b: bool)
    ensures
        b == password_matches(password@, hash@),
{
    match PasswordHash::new(hash) {
        Ok(parsed) => Argon2::default().verify_password(password.as_bytes(), &parsed).is_ok(),
        Err(_) => false,
    }
}

} // verus!
