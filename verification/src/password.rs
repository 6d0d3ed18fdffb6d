//! Password hashes: Argon2 hashes in the PHC string format, made with a
//! fresh random salt and checked against a candidate password.
use vstd::prelude::*;
use vstd::string::StringSliceAdditionalSpecFns;
use argon2::password_hash::{PasswordHash, PasswordHasher, PasswordVerifier, Salt, SaltString};
use crate::error::AppError;
use crate::invite::thread_rng;

verus! {

/// What Argon2 verification answers for `password` against the stored text
/// `hash`: `None` when `hash` does not read as a PHC hash string, otherwise
/// whether the password matches it.
pub uninterp spec fn argon2_check(password: Seq<char>, hash: Seq<char>) -> Option<bool>;

/// The PHC string that Argon2, with its default parameters, makes of
/// `password` and the base64 salt `salt`; `None` when hashing fails.
pub uninterp spec fn argon2_hash_of(password: Seq<char>, salt: Seq<char>) -> Option<Seq<char>>;

/// Whether `c` is in the standard base64 alphabet.
pub open spec fn is_b64_char(c: char) -> bool {
    ('A' <= c <= 'Z') || ('a' <= c <= 'z') || ('0' <= c <= '9') || c == '+' || c == '/'
}

/// Whether `s` is the canonical unpadded base64 text of 16 bytes: 22
/// characters of the alphabet, the last of which carries no stray low bits
/// (`A`, `Q`, `g` or `w`).
pub open spec fn is_salt_text(s: Seq<char>) -> bool {
    &&& s.len() == 22
    &&& forall|i: int| 0 <= i < 21 ==> is_b64_char(#[trigger] s[i])
    &&& (s[21] == 'A' || s[21] == 'Q' || s[21] == 'g' || s[21] == 'w')
}

/// The largest password, in bytes, that Argon2 accepts.
pub open spec fn max_password_bytes() -> nat {
    0xFFFF_FFFF
}

/// Calls `SaltString::generate` with the thread-local random generator and
/// returns the salt's text. `generate` fills 16 random bytes and encodes them
/// with unpadded standard base64, so the text is the canonical encoding of 16
/// bytes; which bytes is left to chance.
#[verifier::external_body]
fn generate_salt(rng: &mut rand::rngs::ThreadRng) -> (res: String)
    ensures
        is_salt_text(res@),
{
    SaltString::generate(rng).as_str().to_owned()
}

/// Calls `PasswordHasher::hash_password` of `Argon2::default()` on the bytes
/// of `password` with the salt read by `Salt::from_b64`, and renders the
/// hash as its PHC string. Hashing is a function of the password and the
/// salt, which the contract names. It adds what the `PasswordVerifier`
/// source shows: verification recomputes the hash with the parameters and
/// salt written in the PHC string, so the password it was made from matches
/// it. Hashing fails only on a salt that `Salt::from_b64` refuses or that
/// does not decode canonically, or on a password longer than `MAX_PWD_LEN`
/// bytes; the default parameters themselves never fail, so a canonical
/// 16-byte salt and a password within that length always give a hash.
#[verifier::external_body]
fn argon2_hash(password: &str, salt: &str) -> (res: Option<String>)
    ensures
        match res {
            Some(h) => argon2_hash_of(password@, salt@) == Some(h@) && argon2_check(password@, h@)
                == Some(true),
            None => argon2_hash_of(password@, salt@) is None,
        },
        (is_salt_text(salt@) && password.spec_bytes().len() <= max_password_bytes()) ==> res is Some,
{
    let salt = Salt::from_b64(salt).ok()?;
    argon2::Argon2::default().hash_password(password.as_bytes(), salt).ok().map(|h| h.to_string())
}

/// Calls `PasswordHash::new` on `hash` and, when it reads, the
/// `PasswordVerifier::verify_password` of `Argon2::default()` on the bytes of
/// `password`. The contract names the outcome.
#[verifier::external_body]
fn argon2_verify(password: &str, hash: &str) -> (res: Option<bool>)
    ensures
        res == argon2_check(password@, hash@),
{
    match PasswordHash::new(hash) {
        Ok(parsed) => Some(argon2::Argon2::default().verify_password(password.as_bytes(), &parsed).is_ok()),
        Err(_) => None,
    }
}

/// Hashes a password with Argon2 and a fresh random salt: the result is the
/// Argon2 hash of the password under some canonical 16-byte salt. Any
/// password of at most `MAX_PWD_LEN` bytes is hashed, and the hash verifies
/// against it; a longer one is an internal error.
pub fn hash_password(password: &str) -> (res: Result<String, AppError>)
    ensures
        password.spec_bytes().len() <= max_password_bytes() <==> res is Ok,
        res matches Ok(h) ==> argon2_check(password@, h@) == Some(true),
        res matches Ok(h) ==> exists|salt: Seq<char>|
            is_salt_text(salt) && #[trigger] argon2_hash_of(password@, salt) == Some(h@),
        res matches Err(e) ==> e is Internal && e->Internal_0@ == "Erreur de hachage du mot de passe"@,
{
    if password.as_bytes().len() > 0xFFFF_FFFF {
        return Err(AppError::Internal("Erreur de hachage du mot de passe".to_owned()));
    }
    let mut rng = thread_rng();
    let salt = generate_salt(&mut rng);
    match argon2_hash(password, salt.as_str()) {
        Some(h) => Ok(h),
        None => Err(AppError::Internal("Erreur de hachage du mot de passe".to_owned())),
    }
}

/// Whether `password` matches the stored hash `hash`; a stored text that is
/// not a PHC hash string is an internal error.
pub fn verify_password(password: &str, hash: &str) -> (res: Result<bool, AppError>)
    ensures
        match argon2_check(password@, hash@) {
            Some(b) => res == Ok::<bool, AppError>(b),
            None => res is Err && res->Err_0 is Internal && res->Err_0->Internal_0@
                == "Hash de mot de passe invalide"@,
        },
{
    match argon2_verify(password, hash) {
        Some(b) => Ok(b),
        None => Err(AppError::Internal("Hash de mot de passe invalide".to_owned())),
    }
}

} // verus!
