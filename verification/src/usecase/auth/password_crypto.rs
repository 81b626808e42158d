//! Password hashing and verification with Argon2 (default parameters).
use vstd::prelude::*;
use vstd::utf8::encode_utf8;
use argon2::{PasswordHasher, PasswordVerifier};
use crate::domain::error::DomainError;
use crate::domain::user::vo::PasswordHash;

verus! {

broadcast use vstd::string::group_string_axioms;

#[verifier::external_type_specification]
#[verifier::external_body]
pub struct ExPasswordHashError(argon2::password_hash::Error);

/// Name for the PHC string that `Argon2::default().hash_password` produces
/// for a password and a (base64) salt.
pub uninterp spec fn spec_argon2_hash(password: Seq<u8>, salt: Seq<char>) -> Seq<char>;

/// Name for whether `argon2::PasswordHash::new` accepts a PHC string.
pub uninterp spec fn spec_phc_parses(phc: Seq<char>) -> bool;

/// Name for whether `Argon2::default().verify_password` accepts a password
/// against a PHC string.
pub uninterp spec fn spec_argon2_matches(password: Seq<u8>, phc: Seq<char>) -> bool;

/// The longest password, in bytes, that Argon2 accepts (`MAX_PWD_LEN`).
pub const MAX_PASSWORD_BYTES: usize = 0xFFFF_FFFFusize;

/// A character of the standard Base64 alphabet.
pub open spec fn is_b64_char(c: char) -> bool {
    ('A' <= c && c <= 'Z') || ('a' <= c && c <= 'z') || ('0' <= c && c <= '9') || c == '+' || c
        == '/'
}

/// A salt as `SaltString::generate` writes it: 16 bytes in standard Base64
/// without padding, that is 22 characters of the alphabet of which the last
/// carries only 2 bits (so it is `A`, `Q`, `g` or `w`).
pub open spec fn is_generated_salt(s: Seq<char>) -> bool {
    &&& s.len() == 22
    &&& forall|i: int| 0 <= i < 22 ==> #[trigger] is_b64_char(s[i])
    &&& (s[21] == 'A' || s[21] == 'Q' || s[21] == 'g' || s[21] == 'w')
}

/// A fresh random salt from `SaltString::generate(&mut OsRng)`, in its
/// base64 text form.
/// Trusted: the salt is 16 bytes in unpadded standard Base64 (the source
/// fills `Salt::RECOMMENDED_LENGTH` = 16 random bytes and encodes them with
/// `Encoding::B64`); which bytes is not claimed, as they are random.
#[verifier::external_body]
fn generate_salt() -> (res: String)
    ensures
        is_generated_salt(res@),
{
    argon2::password_hash::SaltString::generate(&mut argon2::password_hash::rand_core::OsRng).as_str().to_string()
}

/// Hashes a password with `Argon2::default().hash_password` and the salt
/// given in base64 (read back with `SaltString::from_b64`), and renders the
/// result as a PHC string.
/// Trusted: a string that comes back is `spec_argon2_hash` of the
/// arguments, `PasswordHash::new` accepts it, and the same password
/// verifies against it (the round trip the crate documents: the PHC string
/// carries the algorithm, version, parameters and salt that verification
/// recomputes the hash with). For a salt as `generate_salt` writes it,
/// the call succeeds exactly when the password is at most `MAX_PWD_LEN`
/// bytes: `SaltString::from_b64` accepts 22 Base64 characters, they decode
/// to 16 bytes (at least `MIN_SALT_LEN`), and the default parameters and
/// output length are valid; the password length is the remaining check.
/// For other salts, when the call fails is not claimed.
#[verifier::external_body]
fn argon2_hash(password: &[u8], salt: &str) -> (res: Result<
    String,
    argon2::password_hash::Error,
>)
    ensures
        is_generated_salt(salt@) ==> (res is Ok <==> password@.len() <= MAX_PASSWORD_BYTES),
        res matches Ok(h) ==> {
            &&& h@ == spec_argon2_hash(password@, salt@)
            &&& spec_phc_parses(h@)
            &&& spec_argon2_matches(password@, h@)
        },
{
    let salt = argon2::password_hash::SaltString::from_b64(salt)?;
    argon2::Argon2::default().hash_password(password, &salt).map(|h| h.to_string())
}

/// Parses a PHC string with `argon2::PasswordHash::new` and checks a
/// password against it with `Argon2::default().verify_password`.
/// Trusted: the parse fails exactly when `spec_phc_parses` is false, and
/// otherwise the answer is `spec_argon2_matches`.
#[verifier::external_body]
fn argon2_verify(password: &[u8], phc: &str) -> (res: Result<bool, argon2::password_hash::Error>)
    ensures
        res is Ok <==> spec_phc_parses(phc@),
        res matches Ok(b) ==> b == spec_argon2_matches(password@, phc@),
{
    let parsed = argon2::PasswordHash::new(phc)?;
    Ok(argon2::Argon2::default().verify_password(password, &parsed).is_ok())
}

/// `raw` is accepted against the stored hash `hash`.
pub open spec fn password_matches(raw: Seq<char>, hash: Seq<char>) -> bool {
    spec_phc_parses(hash) && spec_argon2_matches(encode_utf8(raw), hash)
}

/// Hashes a password with a fresh random salt. It succeeds exactly when
/// the password is at most `MAX_PASSWORD_BYTES` long in UTF-8, and the
/// hash that comes back accepts the password it was made from.
pub fn hash_password(raw: &str) -> (res: Result<PasswordHash, DomainError>)
    ensures
        res is Ok <==> encode_utf8(raw@).len() <= MAX_PASSWORD_BYTES,
        res matches Ok(h) ==> {
            &&& password_matches(raw@, h@)
            &&& exists|salt: Seq<char>| h@ == #[trigger] spec_argon2_hash(encode_utf8(raw@), salt)
        },
        res matches Err(e) ==> e is Unexpected,
{
    let salt = generate_salt();
    match argon2_hash(raw.as_bytes(), salt.as_str()) {
        Ok(h) => Ok(PasswordHash::new(h)),
        Err(e) => Err(DomainError::Unexpected(e.to_string())),
    }
}

/// Checks `raw` against the stored hash: an unreadable hash is an
/// unexpected error, a password that does not match is `IncorrectPassword`.
pub fn verify_password(raw: &str, hash: &str) -> (res: Result<(), DomainError>)
    ensures
        res is Ok <==> password_matches(raw@, hash@),
        !spec_phc_parses(hash@) ==> res matches Err(DomainError::Unexpected(_)),
        spec_phc_parses(hash@) && !password_matches(raw@, hash@) ==> res matches Err(
            DomainError::IncorrectPassword,
        ),
{
    match argon2_verify(raw.as_bytes(), hash) {
        Ok(true) => Ok(()),
        Ok(false) => Err(DomainError::IncorrectPassword),
        Err(e) => Err(DomainError::Unexpected(e.to_string())),
    }
}

} // verus!
