//! The conversation between a use case and the stores it reads and writes.
//!
//! A use case never talks to storage itself. Each step either finishes with
//! the use case's result, or names one request for the stores together with
//! the state to resume from; whoever runs the use case performs the request
//! and hands the reply back. Steps that issue a session, stamp a change or
//! judge a refresh token also take the time of the step, `now`.
use vstd::prelude::*;
use crate::domain::error::DomainError;
use crate::domain::refresh_token::vo::{RefreshTokenId, TokenHash};
use crate::domain::refresh_token::RefreshToken;
use crate::domain::types::UtcDateTime;
use crate::domain::user::user_auth::UserAuth;
use crate::domain::user::vo::{DeviceId, Email, OAuthProvider, ProviderUserId, UserId, UserName, UserPlan};
use crate::domain::user::{NewUser, User};

verus! {

/// One request to the user or refresh-token store.
#[derive(Debug)]
pub enum RepoRequest {
    FindUserById { user_id: UserId },
    FindUserByEmail { email: Email },
    FindUserByDeviceId { device_id: DeviceId },
    FindUserByProvider { provider: OAuthProvider, provider_user_id: ProviderUserId },
    CreateUser { new_user: NewUser },
    UpdateUserName { user_id: UserId, name: UserName },
    UpdateUserPlan { user_id: UserId, plan: UserPlan, plan_expires_at: Option<UtcDateTime> },
    SaveUserAuth { auth: UserAuth },
    FindRefreshTokenByHash { token_hash: TokenHash },
    CreateRefreshToken { user_id: UserId, token_hash: TokenHash, expires_at: UtcDateTime },
    RevokeRefreshToken { token_id: RefreshTokenId },
}

/// The stores' answer to one request.
#[derive(Debug)]
pub enum RepoReply {
    /// Answer to the `FindUser...` requests.
    User(Result<Option<User>, DomainError>),
    /// Answer to `CreateUser`.
    CreatedUser(Result<User, DomainError>),
    /// Answer to `FindRefreshTokenByHash`.
    RefreshToken(Result<Option<RefreshToken>, DomainError>),
    /// Answer to `CreateRefreshToken`.
    CreatedRefreshToken(Result<RefreshToken, DomainError>),
    /// Answer to the updates and to `RevokeRefreshToken`.
    Done(Result<(), DomainError>),
}

/// Where a use case stands after one step.
#[derive(Debug)]
pub enum Step<S, O> {
    /// Perform the request, then resume from the state with the reply.
    Perform(S, RepoRequest),
    /// The use case is over.
    Finished(Result<O, DomainError>),
}

/// The error for a reply that does not answer the request that was made.
pub fn mismatched_reply() -> (res: DomainError)
    ensures
        res is Unexpected,
{
    DomainError::Unexpected("repository reply does not match the request".to_string())
}

} // verus!
