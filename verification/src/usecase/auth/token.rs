//! Access tokens (signed JWTs) and refresh tokens (random, stored hashed).
use vstd::prelude::*;
use vstd::utf8::encode_utf8;
use rand::RngCore;
use sha2::Digest;
use crate::domain::error::DomainError;
use crate::domain::refresh_token::vo::TokenHash;
use crate::domain::types::utc_now;

verus! {

broadcast use vstd::string::group_string_axioms;

/// Seconds an access token stays valid after it is issued.
pub const ACCESS_TOKEN_TTL_SECS: u64 = 900u64;

/// Bytes of randomness in a refresh token.
pub const REFRESH_TOKEN_BYTES: usize = 32usize;

/// The claims an access token carries: the user and the expiry (Unix
/// seconds).
#[derive(Debug, Clone, Copy, PartialEq, Eq, Structural)]
pub struct Claims {
    pub sub: i64,
    pub exp: u64,
}

#[verifier::external_type_specification]
#[verifier::external_body]
pub struct ExJwtError(jsonwebtoken::errors::Error);


/// The lower-case hexadecimal digit for `n` (< 16).
pub open spec fn hex_digit(n: int) -> char {
    if n < 10 {
        (48 + n) as char
    } else {
        (87 + n) as char
    }
}

/// Lower-case hexadecimal text of `bytes`: two digits per byte, high
/// nibble first.
pub open spec fn hex_lower(bytes: Seq<u8>) -> Seq<char>
    decreases bytes.len(),
{
    if bytes.len() == 0 {
        Seq::empty()
    } else {
        seq![hex_digit((bytes[0] / 16) as int), hex_digit((bytes[0] % 16) as int)] + hex_lower(bytes.drop_first())
    }
}

/// Hex text is two characters per byte.
pub proof fn lemma_hex_lower_len(bytes: Seq<u8>)
    ensures
        hex_lower(bytes).len() == 2 * bytes.len(),
    decreases bytes.len(),
{
    if bytes.len() > 0 {
        lemma_hex_lower_len(bytes.drop_first());
    }
}

/// Name for what `Sha256::digest` returns for the given bytes.
pub uninterp spec fn spec_sha256(data: Seq<u8>) -> Seq<u8>;

/// Name for the compact JWT that `jsonwebtoken::encode` returns with the
/// default header (HS256), the claims `sub` and `exp`, and an HMAC key made
/// from the UTF-8 bytes of `secret`.
pub uninterp spec fn spec_jwt_hs256(sub: i64, exp: u64, secret: Seq<char>) -> Seq<char>;

/// Name for the claims `sub` and `exp` that `jsonwebtoken::decode` reads
/// from `token` when its HS256 signature checks out with the key made from
/// the UTF-8 bytes of `secret` (the expiry is not checked against a clock),
/// or `None` when decoding fails or a claim is missing or out of range.
/// The payload is read as a map of integers, so a token carrying any claim
/// that is not an integer reads as `None` too.
pub uninterp spec fn spec_jwt_hs256_claims(token: Seq<char>, secret: Seq<char>) -> Option<(i64, u64)>;

/// Encodes bytes with `hex::encode`.
/// Trusted: the result is the lower-case hex text of the bytes, high nibble
/// first (the crate's `HEX_CHARS_LOWER` table).
#[verifier::external_body]
fn hex_encode(data: &[u8]) -> (res: String)
    ensures
        res@ == hex_lower(data@),
{
    hex::encode(data)
}

/// Hashes bytes with `sha2::Sha256::digest`.
/// Trusted: the result is `spec_sha256` of the bytes, and a SHA-256 digest
/// is 32 bytes long.
#[verifier::external_body]
fn sha256(data: &[u8]) -> (res: Vec<u8>)
    ensures
        res@ == spec_sha256(data@),
        res@.len() == 32,
{
    sha2::Sha256::digest(data).to_vec()
}

/// Fills 32 bytes from `rand::thread_rng()` (`RngCore::fill_bytes`).
/// Trusted: only the length of the result is claimed; the bytes are random.
#[verifier::external_body]
fn random_token_bytes() -> (res: Vec<u8>)
    ensures
        res@.len() == REFRESH_TOKEN_BYTES,
{
    let mut bytes = [0u8; 32];
    rand::thread_rng().fill_bytes(&mut bytes);
    bytes.to_vec()
}

/// Signs the claims `sub` and `exp` with `jsonwebtoken::encode`, the
/// default header (HS256) and `EncodingKey::from_secret` on the UTF-8 bytes
/// of `secret`. The claims are handed over as a map from their names to
/// their values.
/// Trusted: the call succeeds, the token is `spec_jwt_hs256` of the
/// arguments, and decoding it with the same secret reads back the same
/// claims (`decode` checks the HMAC that `encode` computed over the same
/// header and payload, and the payload holds exactly `sub` and `exp`).
/// `encode` fails only when the key's family differs from the
/// header's algorithm (both HMAC here), when the header or claims cannot
/// be serialised (a map of integers can), or when signing fails (HMAC
/// signing returns `Ok`).
#[verifier::external_body]
fn jwt_encode_hs256(sub: i64, exp: u64, secret: &str) -> (res: Result<
    String,
    jsonwebtoken::errors::Error,
>)
    ensures
        res is Ok,
        res matches Ok(t) ==> t@ == spec_jwt_hs256(sub, exp, secret@),
        res matches Ok(t) ==> spec_jwt_hs256_claims(t@, secret@) == Some((sub, exp)),
{
    let mut claims = std::collections::BTreeMap::new();
    claims.insert("sub", i128::from(sub));
    claims.insert("exp", i128::from(exp));
    let key = jsonwebtoken::EncodingKey::from_secret(secret.as_bytes());
    jsonwebtoken::encode(&jsonwebtoken::Header::default(), &claims, &key)
}

/// Decodes an HS256 token with `jsonwebtoken::decode`, the key
/// `DecodingKey::from_secret` on the UTF-8 bytes of `secret`, and the
/// default validation with the expiry check turned off, reading the claims
/// as a map of integers and picking out `sub` and `exp`.
/// Trusted: the result is `spec_jwt_hs256_claims` of the arguments; with
/// the clock left out of the validation, it depends on them alone.
#[verifier::external_body]
pub(crate) fn jwt_decode_hs256(token: &str, secret: &str) -> (res: Option<(i64, u64)>)
    ensures
        res == spec_jwt_hs256_claims(token@, secret@),
{
    let mut validation = jsonwebtoken::Validation::default();
    validation.validate_exp = false;
    let key = jsonwebtoken::DecodingKey::from_secret(secret.as_bytes());
    let data = jsonwebtoken::decode::<std::collections::BTreeMap<String, i128>>(token, &key, &validation).ok()?;
    let sub = i64::try_from(*data.claims.get("sub")?).ok()?;
    let exp = u64::try_from(*data.claims.get("exp")?).ok()?;
    Some((sub, exp))
}

/// Seconds after its expiry that a token is still accepted, for clock
/// skew (`Validation`'s default `leeway`).
pub const ACCESS_TOKEN_LEEWAY_SECS: u64 = 60u64;

/// The expiry of an access token issued at `issued_at` (Unix seconds).
pub open spec fn access_token_expiry(issued_at: u64) -> int {
    issued_at + ACCESS_TOKEN_TTL_SECS
}

/// The access token for `user_id` issued at `issued_at` (Unix seconds):
/// it expires 15 minutes later. An expiry beyond `u64` is refused; any
/// other issue time gives the token.
pub fn issue_token_at(user_id: i64, issued_at: u64, secret: &str) -> (res: Result<
    String,
    DomainError,
>)
    ensures
        access_token_expiry(issued_at) > u64::MAX ==> res matches Err(DomainError::Unexpected(_)),
        access_token_expiry(issued_at) <= u64::MAX ==> (res matches Ok(t) && t@ == spec_jwt_hs256(
            user_id,
            access_token_expiry(issued_at) as u64,
            secret@,
        ) && spec_jwt_hs256_claims(t@, secret@) == Some(
            (user_id, access_token_expiry(issued_at) as u64),
        )),
{
    let exp = match issued_at.checked_add(ACCESS_TOKEN_TTL_SECS) {
        Some(x) => x,
        None => {
            return Err(DomainError::Unexpected("token expiry out of range".to_string()));
        },
    };
    match jwt_encode_hs256(user_id, exp, secret) {
        Ok(t) => Ok(t),
        Err(e) => Err(DomainError::Unexpected(e.to_string())),
    }
}

/// An access token for `user_id`, signed with `secret`, that expires 15
/// minutes after the current time.
pub open spec fn is_access_token_for(token: Seq<char>, user_id: i64, secret: Seq<char>) -> bool {
    exists|issued_at: u64|
        access_token_expiry(issued_at) <= u64::MAX && token == #[trigger] spec_jwt_hs256(
            user_id,
            access_token_expiry(issued_at) as u64,
            secret,
        )
}

/// Issues an access token for `user_id` from the system clock.
pub fn issue_token(user_id: i64, secret: &str) -> (res: Result<String, DomainError>)
    ensures
        res matches Ok(t) ==> is_access_token_for(t@, user_id, secret@),
        res matches Err(e) ==> e is Unexpected,
{
    let now = utc_now()?;
    let issued_at = match now.whole_unix_secs() {
        Some(s) => s,
        None => {
            return Err(DomainError::Unexpected("system time before Unix epoch".to_string()));
        },
    };
    issue_token_at(user_id, issued_at, secret)
}

/// The text of a refresh token: 32 bytes in lower-case hex.
pub open spec fn is_refresh_token_text(token: Seq<char>) -> bool {
    exists|bytes: Seq<u8>| bytes.len() == REFRESH_TOKEN_BYTES && token == #[trigger] hex_lower(bytes)
}

/// A fresh refresh token: 32 random bytes in lower-case hex (64 characters).
pub fn generate_refresh_token() -> (res: String)
    ensures
        is_refresh_token_text(res@),
        res@.len() == 2 * REFRESH_TOKEN_BYTES,
{
    let bytes = random_token_bytes();
    let res = hex_encode(bytes.as_slice());
    proof {
        lemma_hex_lower_len(bytes@);
    }
    res
}

/// The hash a refresh token is stored under: the lower-case hex of the
/// SHA-256 digest of the token's UTF-8 bytes.
pub open spec fn token_hash_of(token: Seq<char>) -> Seq<char> {
    hex_lower(spec_sha256(encode_utf8(token)))
}

pub fn hash_refresh_token(token: &str) -> (res: TokenHash)
    ensures
        res@ == token_hash_of(token@),
        res@.len() == 64,
{
    let digest = sha256(token.as_bytes());
    let text = hex_encode(digest.as_slice());
    proof {
        lemma_hex_lower_len(digest@);
    }
    TokenHash::from_hash(text)
}

} // verus!
