use argon2::password_hash::rand_core::OsRng;
use argon2::password_hash::{Salt, SaltString};
use argon2::{Argon2, PasswordHash, PasswordHasher, PasswordVerifier};
use vstd::prelude::*;

use crate::error::{failure, AppError, ErrorKind};
use crate::validation::byte_len;

verus! {

#[verifier::external_type_specification]
#[verifier::external_body]
pub struct ExPasswordHashError(argon2::password_hash::Error);

/// Whether a text parses as a PHC password-hash string.
pub uninterp spec fn phc_parses(hash: Seq<char>) -> bool;

/// Whether Argon2 accepts a password against a PHC hash string.
pub uninterp spec fn argon2_accepts(password: Seq<char>, hash: Seq<char>) -> bool;

pub const HASH_FAILED: &'static str = "Password hashing failed";

pub const HASH_UNREADABLE: &'static str = "Stored password hash is unreadable";

/// The outcome of checking a password against a stored hash: `None` when
/// the hash cannot be parsed, else whether it matches.
pub open spec fn password_verdict(password: Seq<char>, hash: Seq<char>) -> Option<bool> {
    if phc_parses(hash) {
        Some(argon2_accepts(password, hash))
    } else {
        None
    }
}

/// The longest password Argon2 accepts, in bytes.
pub const MAX_PASSWORD_BYTES: u64 = 0xFFFF_FFFF;

/// A character of the B64 alphabet (standard Base64 without padding).
pub open spec fn b64_char(c: char) -> bool {
    ||| 65 <= (c as u32) <= 90
    ||| 97 <= (c as u32) <= 122
    ||| 48 <= (c as u32) <= 57
    ||| c == '+'
    ||| c == '/'
}

/// The canonical B64 text of sixteen bytes: 22 characters of the alphabet,
/// the last of which carries two data bits and four zero bits.
pub open spec fn salt_text(s: Seq<char>) -> bool {
    &&& s.len() == 22
    &&& forall|i: int| 0 <= i < 22 ==> b64_char(#[trigger] s[i])
    &&& (s[21] == 'A' || s[21] == 'Q' || s[21] == 'g' || s[21] == 'w')
}

/// Relies on `SaltString::generate` with the operating system's generator,
/// which encodes sixteen fresh random bytes as B64.
#[verifier::external_body]
fn fresh_salt() -> (r: String)
    ensures
        salt_text(r@),
{
    SaltString::generate(&mut OsRng).as_str().to_owned()
}

/// Relies on `Salt::from_b64` and `Argon2::hash_password` with default
/// parameters: the PHC string produced parses again and verifies against
/// the same password, as the crate's documentation shows; with a salt of
/// sixteen canonically encoded bytes, hashing fails only for a password
/// longer than `MAX_PASSWORD_BYTES`.
#[verifier::external_body]
fn hash_with_salt(password: &str, salt: &str) -> (r: Result<String, argon2::password_hash::Error>)
    ensures
        r matches Ok(h) ==> phc_parses(h@) && argon2_accepts(password@, h@),
        salt_text(salt@) && byte_len(password@) <= MAX_PASSWORD_BYTES ==> r is Ok,
{
    let salt = Salt::from_b64(salt)?;
    Argon2::default().hash_password(password.as_bytes(), salt).map(|h| h.to_string())
}

/// Relies on `PasswordHash::new`, which fails on a malformed hash, and on
/// `Argon2::verify_password`, which accepts or rejects the password.
#[verifier::external_body]
fn verify_with_argon2(password: &str, hash: &str) -> (r: Result<bool, argon2::password_hash::Error>)
    ensures
        r is Ok <==> phc_parses(hash@),
        r matches Ok(b) ==> b == argon2_accepts(password@, hash@),
{
    let parsed = PasswordHash::new(hash)?;
    Ok(Argon2::default().verify_password(password.as_bytes(), &parsed).is_ok())
}

/// Hashes a password under a freshly drawn salt; the result verifies
/// against the password. Only a password longer than `MAX_PASSWORD_BYTES`
/// fails.
pub fn hash_password(password: &str) -> (r: Result<String, AppError>)
    ensures
        r matches Ok(h) ==> phc_parses(h@) && argon2_accepts(password@, h@),
        byte_len(password@) <= MAX_PASSWORD_BYTES ==> r is Ok,
        r matches Err(e) ==> e@ == failure(ErrorKind::InternalServerError, HASH_FAILED@),
{
    let salt = fresh_salt();
    match hash_with_salt(password, salt.as_str()) {
        Ok(h) => Ok(h),
        Err(_) => Err(AppError::new(ErrorKind::InternalServerError, HASH_FAILED)),
    }
}

/// Checks a password against a stored hash. A hash that does not parse is
/// corrupt data, reported as an internal error; a mismatch is `Ok(false)`.
pub fn check_password(password: &str, hash: &str) -> (r: Result<bool, AppError>)
    ensures
        match password_verdict(password@, hash@) {
            Some(b) => r == Ok::<bool, AppError>(b),
            None => r matches Err(e) && e@ == failure(ErrorKind::InternalServerError, HASH_UNREADABLE@),
        },
{
    match verify_with_argon2(password, hash) {
        Ok(b) => Ok(b),
        Err(_) => Err(AppError::new(ErrorKind::InternalServerError, HASH_UNREADABLE)),
    }
}

} // verus!
