//! Authenticating the caller from the access token in the `Authorization`
//! header.
use vstd::prelude::*;
use crate::domain::error::DomainError;
use crate::text::{chars_of, str_eq};
use crate::usecase::auth::token::{
    jwt_decode_hs256, spec_jwt_hs256_claims, Claims, ACCESS_TOKEN_LEEWAY_SECS,
};

verus! {

broadcast use vstd::string::group_string_axioms;

/// The verified claims of the caller.
pub struct AuthUser(pub Claims);

/// The token of a bearer header: what follows `Bearer `, if the header
/// starts with it.
pub open spec fn bearer_of(header: Seq<char>) -> Option<Seq<char>> {
    if header.len() >= 7 && header.subrange(0, 7) == "Bearer "@ {
        Some(header.subrange(7, header.len() as int))
    } else {
        None
    }
}

/// The bearer token of the `Authorization` header; a missing header or
/// one of another scheme is unauthorized.
pub fn bearer_token(header: Option<&str>) -> (res: Result<&str, DomainError>)
    ensures
        match header {
            Some(h) => match bearer_of(h@) {
                Some(t) => res matches Ok(r) && r@ == t,
                None => res matches Err(DomainError::Unauthorized),
            },
            None => res matches Err(DomainError::Unauthorized),
        },
{
    let h = match header {
        Some(h) => h,
        None => {
            return Err(DomainError::Unauthorized);
        },
    };
    let n = chars_of(h).len();
    proof {
        reveal_strlit("Bearer ");
        assert("Bearer "@.len() == 7);
    }
    if n < 7 {
        return Err(DomainError::Unauthorized);
    }
    let scheme = h.substring_char(0, 7);
    if !str_eq(scheme, "Bearer ") {
        return Err(DomainError::Unauthorized);
    }
    Ok(h.substring_char(7, n))
}

/// The caller a request is authenticated as: its bearer token must carry
/// claims signed with `secret`, and must not have expired more than the
/// leeway (60 seconds) before `now_secs` (Unix seconds). Anything else is
/// unauthorized.
pub fn authenticate(header: Option<&str>, secret: &str, now_secs: u64) -> (res: Result<
    AuthUser,
    DomainError,
>)
    ensures
        match header {
            None => res matches Err(DomainError::Unauthorized),
            Some(h) => match bearer_of(h@) {
                None => res matches Err(DomainError::Unauthorized),
                Some(t) => match spec_jwt_hs256_claims(t, secret@) {
                    None => res matches Err(DomainError::Unauthorized),
                    Some((sub, exp)) => if exp + ACCESS_TOKEN_LEEWAY_SECS >= now_secs {
                        res == Ok::<AuthUser, DomainError>(AuthUser(Claims { sub, exp }))
                    } else {
                        res matches Err(DomainError::Unauthorized)
                    },
                },
            },
        },
{
    let token = bearer_token(header)?;
    match jwt_decode_hs256(token, secret) {
        Some((sub, exp)) => {
            if exp >= now_secs || now_secs - exp <= ACCESS_TOKEN_LEEWAY_SECS {
                Ok(AuthUser(Claims { sub, exp }))
            } else {
                Err(DomainError::Unauthorized)
            }
        },
        None => Err(DomainError::Unauthorized),
    }
}

} // verus!
