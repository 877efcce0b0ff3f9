//! Password hashing: a memory-hard, salted one-way derivation. The plaintext
//! goes in once; only the rendered hash string ever comes back.

use vstd::prelude::*;
use argon2::PasswordHasher;

verus! {

/// Relies on argon2's `Argon2::hash_password` under its default Argon2id
/// parameters: it draws a fresh cryptographically random 16-byte salt per
/// call and renders the derived hash in PHC string form, which always begins
/// with a `$` and the algorithm identifier, so a returned string is
/// non-empty. The salt makes the result deliberately non-deterministic.
#[verifier::external_body]
pub(crate) fn hash_password(password: &str) -> (r: Option<String>)
    ensures
        r matches Some(h) ==> h@.len() > 0,
{
    match argon2::Argon2::default().hash_password(password.as_bytes()) {
        Ok(h) => Some(h.to_string()),
        Err(_) => None,
    }
}

} // verus!
