//! What every successful sign-in hands out: an access token, a refresh
//! token, and the request that stores the refresh token's hash.
use vstd::prelude::*;
use crate::domain::error::DomainError;
use crate::domain::types::UtcDateTime;
use crate::domain::user::vo::UserId;
use crate::usecase::auth::token::{
    access_token_expiry, generate_refresh_token, hash_refresh_token, is_refresh_token_text,
    issue_token_at, spec_jwt_hs256, token_hash_of,
};
use crate::usecase::repo::RepoRequest;

verus! {

/// Days a refresh token stays valid after it is issued.
pub const REFRESH_TOKEN_TTL_DAYS: i64 = 30i64;

/// A session can be issued at `now`: the instant is not before the Unix
/// epoch (access tokens count seconds from it) and the refresh token's
/// expiry, 30 days later, can be represented.
pub open spec fn session_possible(now: UtcDateTime) -> bool {
    now.unix_secs() is Some && now.plus_days(REFRESH_TOKEN_TTL_DAYS as int) is Some
}

/// The access token for `user_id` issued at `now`, signed with `secret`:
/// it expires 15 minutes after `now` (in whole seconds).
pub open spec fn access_token_at(user_id: UserId, secret: Seq<char>, now: UtcDateTime) -> Seq<char> {
    spec_jwt_hs256(user_id@, access_token_expiry(now.unix_secs()->0) as u64, secret)
}

/// `req` stores, for `user_id`, the hash of `refresh` with an expiry 30
/// days after `now`.
pub open spec fn stores_refresh_token(
    req: RepoRequest,
    user_id: UserId,
    refresh: Seq<char>,
    now: UtcDateTime,
) -> bool {
    req matches RepoRequest::CreateRefreshToken { user_id: u, token_hash, expires_at } && u == user_id
        && token_hash@ == token_hash_of(refresh) && now.plus_days(REFRESH_TOKEN_TTL_DAYS as int)
        == Some(expires_at)
}

/// A session for `user_id` issued at `now`: the access token signed with
/// `secret`, a fresh refresh token, and the request that stores the
/// refresh token's hash.
pub open spec fn session_issued(
    user_id: UserId,
    secret: Seq<char>,
    now: UtcDateTime,
    access: Seq<char>,
    refresh: Seq<char>,
    req: RepoRequest,
) -> bool {
    &&& access == access_token_at(user_id, secret, now)
    &&& is_refresh_token_text(refresh)
    &&& stores_refresh_token(req, user_id, refresh, now)
}

/// The refresh token a sign-in hands out is the one later found by the
/// refresh and sign-out use cases: the hash stored with it is the hash they
/// look it up by when the client presents it, and it is stored for the user
/// who signed in.
pub proof fn lemma_issued_token_is_found(
    user_id: UserId,
    refresh: Seq<char>,
    now: UtcDateTime,
    store: RepoRequest,
    lookup: RepoRequest,
)
    requires
        stores_refresh_token(store, user_id, refresh, now),
        lookup matches RepoRequest::FindRefreshTokenByHash { token_hash } && token_hash@
            == token_hash_of(refresh),
    ensures
        store matches RepoRequest::CreateRefreshToken { user_id: owner, token_hash: stored, .. }
            && owner == user_id && stored@ == lookup->FindRefreshTokenByHash_token_hash@,
{
}

/// Issues the tokens of a new session for `user_id` at `now`. It fails,
/// with an unexpected error, exactly when no session can be issued at
/// `now`.
pub fn issue_session(user_id: UserId, secret: &str, now: UtcDateTime) -> (res: Result<
    (String, String, RepoRequest),
    DomainError,
>)
    ensures
        session_possible(now) <==> res is Ok,
        res matches Ok((access, refresh, req)) ==> session_issued(
            user_id,
            secret@,
            now,
            access@,
            refresh@,
            req,
        ),
        res matches Err(e) ==> e is Unexpected,
{
    let issued_at = match now.whole_unix_secs() {
        Some(s) => s,
        None => {
            return Err(DomainError::Unexpected("session issued before Unix epoch".to_string()));
        },
    };
    let access = issue_token_at(user_id.value(), issued_at, secret)?;
    let refresh = generate_refresh_token();
    let token_hash = hash_refresh_token(refresh.as_str());
    let expires_at = match now.checked_add_days(REFRESH_TOKEN_TTL_DAYS) {
        Some(t) => t,
        None => {
            return Err(DomainError::Unexpected("refresh token expiry out of range".to_string()));
        },
    };
    let req = RepoRequest::CreateRefreshToken { user_id, token_hash, expires_at };
    Ok((access, refresh, req))
}

} // verus!
