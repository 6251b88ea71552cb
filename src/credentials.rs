use vstd::prelude::*;
use crate::outcome::Outcome;
use argon2::{PasswordHasher, PasswordVerifier};

verus! {

#[verifier::external_type_specification]
#[verifier::external_body]
pub struct ExPasswordHashError(argon2::password_hash::Error);

/// The PHC string that Argon2 with its default parameters makes of `password`
/// and the B64 salt `salt`.
pub uninterp spec fn argon2_phc_of(password: Seq<char>, salt: Seq<char>) -> Seq<char>;

/// What Argon2 says of `password` against the stored value `stored`: `None`
/// when `stored` is no PHC string, else whether the password matches it.
pub uninterp spec fn argon2_verdict(password: Seq<char>, stored: Seq<char>) -> Option<bool>;

/// A character of the standard Base64 alphabet.
pub open spec fn is_b64_char(c: char) -> bool {
    ('A' <= c && c <= 'Z') || ('a' <= c && c <= 'z') || ('0' <= c && c <= '9') || c == '+' || c == '/'
}

/// A salt Argon2 accepts: 16 bytes in unpadded standard Base64, that is 22
/// characters whose last one leaves no stray bits.
pub open spec fn salt_accepted(salt: Seq<char>) -> bool {
    &&& salt.len() == 22
    &&& forall|i: int| 0 <= i < salt.len() ==> is_b64_char(#[trigger] salt[i])
    &&& (salt[21] == 'A' || salt[21] == 'Q' || salt[21] == 'g' || salt[21] == 'w')
}

/// A password short enough for Argon2, whose limit is `0xFFFFFFFF` bytes
/// (a character takes at most four).
pub open spec fn password_hashable(password: Seq<char>) -> bool {
    password.len() <= 0x3FFF_FFFF
}

/// `stored` is an Argon2 hash of `password`, a password Argon2 takes, under
/// some accepted salt.
pub open spec fn is_hash_of(stored: Seq<char>, password: Seq<char>) -> bool {
    &&& password_hashable(password)
    &&& exists|salt: Seq<char>| salt_accepted(salt) && stored == #[trigger] argon2_phc_of(password, salt)
}

/// Relies on password_hash's SaltString::generate over rand's OsRng: 16 random
/// bytes in unpadded standard Base64. Nothing more is promised of its value.
#[verifier::external_body]
fn random_salt() -> (r: String)
    ensures
        salt_accepted(r@),
{
    argon2::password_hash::SaltString::generate(&mut rand::rngs::OsRng).as_str().to_string()
}

/// Relies on Argon2::default().hash_password, with the salt read by
/// SaltString::from_b64: the PHC string depends on the password and the salt
/// alone. It fails only on a salt it cannot decode or a password over
/// `0xFFFFFFFF` bytes.
#[verifier::external_body]
fn argon2_hash(password: &str, salt: &str) -> (r: Result<String, argon2::password_hash::Error>)
    ensures
        r matches Ok(h) ==> h@ == argon2_phc_of(password@, salt@),
        salt_accepted(salt@) && password_hashable(password@) ==> r is Ok,
{
    let salt = argon2::password_hash::SaltString::from_b64(salt)?;
    Ok(argon2::Argon2::default().hash_password(password.as_bytes(), &salt)?.to_string())
}

/// Relies on Argon2::default().verify_password on the hash parsed by
/// PasswordHash::new: an error when `stored` is no PHC string, else whether the
/// password, hashed again with the stored salt and parameters, gives the stored
/// output. The answer depends on the two arguments alone, and a hash made by
/// `argon2_hash` from this password always matches.
#[verifier::external_body]
fn argon2_verify(password: &str, stored: &str) -> (r: Result<bool, argon2::password_hash::Error>)
    ensures
        r matches Ok(b) ==> argon2_verdict(password@, stored@) == Some(b),
        r is Err ==> argon2_verdict(password@, stored@) is None,
        is_hash_of(stored@, password@) ==> r matches Ok(true),
{
    let parsed = argon2::password_hash::PasswordHash::new(stored)?;
    Ok(argon2::Argon2::default().verify_password(password.as_bytes(), &parsed).is_ok())
}

/// Hashes `password` under the given B64 salt. A salt that Argon2 refuses is
/// an internal error.
pub fn hash_password_with_salt(password: &str, salt: &str) -> (r: Result<String, Outcome>)
    ensures
        r matches Ok(h) ==> h@ == argon2_phc_of(password@, salt@),
        salt_accepted(salt@) && password_hashable(password@) ==> r is Ok,
        r is Err ==> r == Err::<String, Outcome>(Outcome::InternalError),
{
    match argon2_hash(password, salt) {
        Ok(h) => Ok(h),
        Err(_) => Err(Outcome::InternalError),
    }
}

/// Hashes `password` under a fresh random salt, embedded in the result.
pub fn hash_password(password: &str) -> (r: Result<String, Outcome>)
    ensures
        r matches Ok(h) ==> exists|salt: Seq<char>| salt_accepted(salt) && h@ == #[trigger] argon2_phc_of(password@, salt),
        password_hashable(password@) ==> (r matches Ok(h) && is_hash_of(h@, password@)),
        r is Err ==> r == Err::<String, Outcome>(Outcome::InternalError),
{
    let salt = random_salt();
    let r = hash_password_with_salt(password, salt.as_str());
    proof {
        if r is Ok {
            assert(salt_accepted(salt@) && r->Ok_0@ == argon2_phc_of(password@, salt@));
        }
    }
    r
}

/// The verdict as a result: a stored value that is no PHC string is an
/// internal error (a corrupted record).
pub open spec fn verdict_result(verdict: Option<bool>) -> Result<bool, Outcome> {
    match verdict {
        Some(b) => Ok(b),
        None => Err(Outcome::InternalError),
    }
}

/// Whether `password` matches `stored`; a stored value that is no PHC string is
/// an internal error. Every hash made from this password matches it.
pub fn check_password(password: &str, stored: &str) -> (r: Result<bool, Outcome>)
    ensures
        r == verdict_result(argon2_verdict(password@, stored@)),
        is_hash_of(stored@, password@) ==> r == Ok::<bool, Outcome>(true),
{
    match argon2_verify(password, stored) {
        Ok(b) => Ok(b),
        Err(_) => Err(Outcome::InternalError),
    }
}

/// Whether `password` matches `stored`. Never fails: a malformed stored value
/// does not match. Every hash made from this password matches it.
pub fn verify_password(password: &str, stored: &str) -> (r: bool)
    ensures
        r == (argon2_verdict(password@, stored@) == Some(true)),
        is_hash_of(stored@, password@) ==> r,
{
    match check_password(password, stored) {
        Ok(b) => b,
        Err(_) => false,
    }
}

} // verus!
