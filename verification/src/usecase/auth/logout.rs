//! Signing out: revoking the refresh token the client holds.
use vstd::prelude::*;
use crate::domain::error::DomainError;
use crate::domain::types::UtcDateTime;
use crate::usecase::auth::token::{hash_refresh_token, token_hash_of};
use crate::usecase::repo::{mismatched_reply, RepoReply, RepoRequest, Step};

verus! {

pub struct LogoutInput {
    pub refresh_token: String,
}

/// Where a sign-out stands between two requests.
pub enum LogoutState {
    /// The stored token with the presented token's hash was asked for.
    AwaitingToken,
    /// The token's revocation was asked for.
    AwaitingRevoke,
}

pub struct LogoutUsecase {}

impl LogoutUsecase {
    pub fn new() -> (res: Self) {
        LogoutUsecase {  }
    }

    /// Asks for the stored token under the hash of the presented one.
    pub fn start(&self, input: LogoutInput) -> (res: Step<LogoutState, ()>)
        ensures
            res matches Step::Perform(
                LogoutState::AwaitingToken,
                RepoRequest::FindRefreshTokenByHash { token_hash },
            ) && token_hash@ == token_hash_of(input.refresh_token@),
    {
        let token_hash = hash_refresh_token(input.refresh_token.as_str());
        Step::Perform(LogoutState::AwaitingToken, RepoRequest::FindRefreshTokenByHash { token_hash })
    }

    /// Revokes the token found when it is still valid at `now`; an
    /// unknown, revoked or expired token is refused as unauthorized.
    pub fn resume(&self, state: LogoutState, reply: RepoReply, now: UtcDateTime) -> (res: Step<LogoutState, ()>)
        ensures
            match (state, reply) {
                (LogoutState::AwaitingToken, RepoReply::RefreshToken(Err(e))) => res == Step::<
                    LogoutState,
                    (),
                >::Finished(Err(e)),
                (LogoutState::AwaitingToken, RepoReply::RefreshToken(Ok(None))) => res matches Step::Finished(
                    Err(DomainError::Unauthorized),
                ),
                (LogoutState::AwaitingToken, RepoReply::RefreshToken(Ok(Some(t)))) => {
                    if t.valid_at(now) {
                        (res matches Step::Perform(
                        LogoutState::AwaitingRevoke,
                        RepoRequest::RevokeRefreshToken { token_id },
                    ) && token_id == t.id)
                    } else {
                        res matches Step::Finished(Err(DomainError::Unauthorized))
                    }
                },
                (LogoutState::AwaitingRevoke, RepoReply::Done(r)) => res == Step::<
                    LogoutState,
                    (),
                >::Finished(r),
                _ => res matches Step::Finished(Err(DomainError::Unexpected(_))),
            },
    {
        match state {
            LogoutState::AwaitingToken => {
                let token = match reply {
                    RepoReply::RefreshToken(Ok(Some(t))) => t,
                    RepoReply::RefreshToken(Ok(None)) => {
                        return Step::Finished(Err(DomainError::Unauthorized));
                    },
                    RepoReply::RefreshToken(Err(e)) => {
                        return Step::Finished(Err(e));
                    },
                    _ => {
                        return Step::Finished(Err(mismatched_reply()));
                    },
                };
                if !token.is_valid_at(now) {
                    return Step::Finished(Err(DomainError::Unauthorized));
                }
                Step::Perform(
                    LogoutState::AwaitingRevoke,
                    RepoRequest::RevokeRefreshToken { token_id: token.id },
                )
            },
            LogoutState::AwaitingRevoke => match reply {
                RepoReply::Done(r) => Step::Finished(r),
                _ => Step::Finished(Err(mismatched_reply())),
            },
        }
    }
}

} // verus!
