//! Trading a refresh token for a new session (token rotation).
use vstd::prelude::*;
use crate::domain::error::DomainError;
use crate::domain::refresh_token::vo::RefreshTokenId;
use crate::domain::types::UtcDateTime;
use crate::domain::user::vo::UserId;
use crate::usecase::auth::session::{issue_session, session_issued, session_possible};
use crate::usecase::auth::token::{hash_refresh_token, token_hash_of};
use crate::usecase::repo::{mismatched_reply, RepoReply, RepoRequest, Step};

verus! {

pub struct RefreshTokenInput {
    pub refresh_token: String,
}

pub struct RefreshTokenOutput {
    pub user_id: i64,
    pub access_token: String,
    pub refresh_token: String,
}

/// Where a refresh stands between two requests.
pub enum RefreshTokenState {
    /// The stored token with the presented token's hash was asked for.
    AwaitingToken,
    /// The owner of the valid token `token_id` was asked for.
    AwaitingUser { token_id: RefreshTokenId },
    /// The presented token's revocation was asked for.
    AwaitingRevoke { user_id: UserId },
    /// The new refresh token's hash was handed over for storing.
    AwaitingTokenStored { output: RefreshTokenOutput },
}

pub struct RefreshTokenUsecase {
    jwt_secret: String,
}

impl RefreshTokenUsecase {
    pub closed spec fn secret(self) -> Seq<char> {
        self.jwt_secret@
    }

    pub fn new(jwt_secret: String) -> (res: Self)
        ensures
            res.secret() == jwt_secret@,
    {
        RefreshTokenUsecase { jwt_secret }
    }

    /// Asks for the stored token under the hash of the presented one.
    pub fn start(&self, input: RefreshTokenInput) -> (res: Step<RefreshTokenState, RefreshTokenOutput>)
        ensures
            res matches Step::Perform(
                RefreshTokenState::AwaitingToken,
                RepoRequest::FindRefreshTokenByHash { token_hash },
            ) && token_hash@ == token_hash_of(input.refresh_token@),
    {
        let token_hash = hash_refresh_token(input.refresh_token.as_str());
        Step::Perform(
            RefreshTokenState::AwaitingToken,
            RepoRequest::FindRefreshTokenByHash { token_hash },
        )
    }

    /// A valid token leads to its owner; the token is revoked before a new
    /// session is issued for the owner; the result comes once the new
    /// refresh token is stored. Unknown, revoked or expired tokens are
    /// refused as unauthorized.
    pub fn resume(&self, state: RefreshTokenState, reply: RepoReply, now: UtcDateTime) -> (res: Step<
        RefreshTokenState,
        RefreshTokenOutput,
    >)
        ensures
            match (state, reply) {
                (RefreshTokenState::AwaitingToken, RepoReply::RefreshToken(Err(e))) => res
                    == Step::<RefreshTokenState, RefreshTokenOutput>::Finished(Err(e)),
                (RefreshTokenState::AwaitingToken, RepoReply::RefreshToken(Ok(None))) => res matches Step::Finished(
                    Err(DomainError::Unauthorized),
                ),
                (RefreshTokenState::AwaitingToken, RepoReply::RefreshToken(Ok(Some(t)))) => {
                    if t.valid_at(now) {
                        (res matches Step::Perform(
                        RefreshTokenState::AwaitingUser { token_id },
                        RepoRequest::FindUserById { user_id },
                    ) && token_id == t.id && user_id == t.user_id)
                    } else {
                        res matches Step::Finished(Err(DomainError::Unauthorized))
                    }
                },
                (RefreshTokenState::AwaitingUser { token_id }, RepoReply::User(Err(e))) => res
                    == Step::<RefreshTokenState, RefreshTokenOutput>::Finished(Err(e)),
                (RefreshTokenState::AwaitingUser { token_id }, RepoReply::User(Ok(None))) => res matches Step::Finished(
                    Err(DomainError::UserNotFound),
                ),
                (RefreshTokenState::AwaitingUser { token_id }, RepoReply::User(Ok(Some(u)))) => res
                    matches Step::Perform(
                    RefreshTokenState::AwaitingRevoke { user_id },
                    RepoRequest::RevokeRefreshToken { token_id: revoked },
                ) && user_id == u.id && revoked == token_id,
                (RefreshTokenState::AwaitingRevoke { user_id }, RepoReply::Done(Err(e))) => res
                    == Step::<RefreshTokenState, RefreshTokenOutput>::Finished(Err(e)),
                (RefreshTokenState::AwaitingRevoke { user_id }, RepoReply::Done(Ok(()))) => {
                    if session_possible(now) {
                        (res matches Step::Perform(
                            RefreshTokenState::AwaitingTokenStored { output },
                            req,
                        ) && output.user_id == user_id@ && session_issued(
                            user_id,
                            self.secret(),
                            now,
                            output.access_token@,
                            output.refresh_token@,
                            req,
                        ))
                    } else {
                        res matches Step::Finished(Err(DomainError::Unexpected(_)))
                    }
                },
                (
                    RefreshTokenState::AwaitingTokenStored { output },
                    RepoReply::CreatedRefreshToken(Err(e)),
                ) => res == Step::<RefreshTokenState, RefreshTokenOutput>::Finished(Err(e)),
                (
                    RefreshTokenState::AwaitingTokenStored { output },
                    RepoReply::CreatedRefreshToken(Ok(_)),
                ) => res == Step::<RefreshTokenState, RefreshTokenOutput>::Finished(Ok(output)),
                _ => res matches Step::Finished(Err(DomainError::Unexpected(_))),
            },
    {
        match state {
            RefreshTokenState::AwaitingToken => {
                let token = match reply {
                    RepoReply::RefreshToken(Ok(Some(t))) => t,
                    RepoReply::RefreshToken(Ok(None)) => {
                        return Step::Finished(Err(DomainError::Unauthorized));
                    },
                    RepoReply::RefreshToken(Err(e)) => {
                        return Step::Finished(Err(e));
                    },
                    _ => {
                        return Step::Finished(Err(mismatched_reply()));
                    },
                };
                if !token.is_valid_at(now) {
                    return Step::Finished(Err(DomainError::Unauthorized));
                }
                Step::Perform(
                    RefreshTokenState::AwaitingUser { token_id: token.id },
                    RepoRequest::FindUserById { user_id: token.user_id },
                )
            },
            RefreshTokenState::AwaitingUser { token_id } => match reply {
                RepoReply::User(Ok(Some(u))) => Step::Perform(
                    RefreshTokenState::AwaitingRevoke { user_id: u.id },
                    RepoRequest::RevokeRefreshToken { token_id },
                ),
                RepoReply::User(Ok(None)) => Step::Finished(Err(DomainError::UserNotFound)),
                RepoReply::User(Err(e)) => Step::Finished(Err(e)),
                _ => Step::Finished(Err(mismatched_reply())),
            },
            RefreshTokenState::AwaitingRevoke { user_id } => match reply {
                RepoReply::Done(Ok(())) => match issue_session(user_id, self.jwt_secret.as_str(), now) {
                    Ok((access_token, refresh_token, req)) => Step::Perform(
                        RefreshTokenState::AwaitingTokenStored {
                            output: RefreshTokenOutput {
                                user_id: user_id.value(),
                                access_token,
                                refresh_token,
                            },
                        },
                        req,
                    ),
                    Err(e) => Step::Finished(Err(e)),
                },
                RepoReply::Done(Err(e)) => Step::Finished(Err(e)),
                _ => Step::Finished(Err(mismatched_reply())),
            },
            RefreshTokenState::AwaitingTokenStored { output } => match reply {
                RepoReply::CreatedRefreshToken(Ok(_)) => Step::Finished(Ok(output)),
                RepoReply::CreatedRefreshToken(Err(e)) => Step::Finished(Err(e)),
                _ => Step::Finished(Err(mismatched_reply())),
            },
        }
    }
}

} // verus!
