//! Password hashing, by the `bcrypt` crate.
use vstd::prelude::*;
use vstd::utf8::is_ascii_chars;
use bcrypt::BcryptError;

verus! {

#[verifier::external_type_specification]
#[verifier::external_body]
pub struct ExBcryptError(BcryptError);

/// What `bcrypt::verify(password, hash)` reports: `Some(b)` where it returns `Ok(b)`,
/// `None` where it returns an error. It depends on its two arguments alone.
pub uninterp spec fn bcrypt_verify_outcome(password: Seq<char>, hash: Seq<char>) -> Option<bool>;

/// Calls `bcrypt::verify(password, hash)`. Claimed of it: its result is the name
/// `bcrypt_verify_outcome` applied to the two texts; and it is an error where `hash` is
/// not 60 ASCII characters (its source refuses such a hash before any hashing).
#[verifier::external_body]
pub(crate) fn verify_password(password: &str, hash: &str) -> (r: Result<bool, BcryptError>)
    ensures
        bcrypt_verify_outcome(password@, hash@) == (match r {
            Ok(b) => Some(b),
            Err(_) => None,
        }),
        !(hash@.len() == 60 && is_ascii_chars(hash@)) ==> r is Err,
{
    bcrypt::verify(password, hash)
}

/// The form of a hash that `bcrypt::hash` writes at the default cost: 60 ASCII characters
/// that begin `$2b$12$` (version, cost, then 22 characters of salt and 31 of hash).
pub open spec fn is_default_bcrypt_text(h: Seq<char>) -> bool {
    &&& h.len() == 60
    &&& is_ascii_chars(h)
    &&& h.take(7) == "$2b$12$"@
}

/// What holds of every outcome of hashing `password`: a hash that has the form above and
/// that `password` verifies against.
pub open spec fn is_hash_of(password: Seq<char>, hashed: Result<String, BcryptError>) -> bool {
    hashed matches Ok(h) ==> is_default_bcrypt_text(h@) && bcrypt_verify_outcome(password, h@)
        == Some(true)
}

/// Calls `bcrypt::hash(password, bcrypt::DEFAULT_COST)`. The salt is drawn at random, so
/// the hash itself is left unsaid, as is when the call fails (where no random bytes can be
/// had). Claimed of it: a hash it returns is 60 ASCII characters beginning `$2b$12$` (its
/// source formats version `2b`, the cost as two digits, and the base64 salt and hash into a
/// 60-byte buffer), and it verifies `password` (`verify` reads cost and salt back and
/// hashes again).
#[verifier::external_body]
pub(crate) fn hash_password(password: &str) -> (r: Result<String, BcryptError>)
    ensures
        is_hash_of(password@, r),
{
    bcrypt::hash(password, bcrypt::DEFAULT_COST)
}

} // verus!
