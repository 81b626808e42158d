//! Signing in with an e-mail address and a password.
use vstd::prelude::*;
use crate::domain::types::UtcDateTime;
use crate::domain::error::DomainError;
use crate::domain::user::user_auth::AuthMethod;
use crate::domain::user::vo::email::normalize_email;
use crate::domain::user::vo::Email;
use crate::domain::user::{NewUser, User};
use crate::usecase::auth::password_crypto::{password_matches, spec_phc_parses, verify_password};
use crate::usecase::auth::session::{issue_session, session_issued, session_possible};
use crate::usecase::repo::{mismatched_reply, RepoReply, RepoRequest, Step};

verus! {

pub struct LoginWithEmailInput {
    pub email: String,
    pub password: String,
}

pub struct LoginWithEmailOutput {
    pub user_id: i64,
    pub access_token: String,
    pub refresh_token: String,
}

/// Where a sign-in stands between two requests.
pub enum LoginWithEmailState {
    /// The user with the address was asked for.
    AwaitingUser { password: String },
    /// The refresh token's hash was handed over for storing.
    AwaitingTokenStored { output: LoginWithEmailOutput },
}

pub struct LoginWithEmailUsecase {
    jwt_secret: String,
}

/// The error verifying `raw` against the stored hash `hash` gives, when it
/// does not match.
pub open spec fn password_rejection(raw: Seq<char>, hash: Seq<char>, e: DomainError) -> bool {
    if spec_phc_parses(hash) {
        e is IncorrectPassword
    } else {
        e is Unexpected
    }
}

/// What sign-up stores, sign-in accepts: when the account found at sign-in
/// carries the credentials sign-up asked to store for `password` (a
/// password hash that `password` matches), the same password matches them
/// again, so sign-in goes on to issue a session rather than refuse it.
pub proof fn lemma_sign_up_password_signs_in(password: Seq<char>, new_user: NewUser, user: User)
    requires
        new_user.auth.method matches AuthMethod::Password { password_hash, .. } && password_matches(
            password,
            password_hash@,
        ),
        user.auth.auth_method == new_user.auth.method,
    ensures
        user.auth.auth_method matches AuthMethod::Password { password_hash, .. } && password_matches(
            password,
            password_hash@,
        ),
{
}

impl LoginWithEmailUsecase {
    pub closed spec fn secret(self) -> Seq<char> {
        self.jwt_secret@
    }

    pub fn new(jwt_secret: String) -> (res: Self)
        ensures
            res.secret() == jwt_secret@,
    {
        LoginWithEmailUsecase { jwt_secret }
    }

    /// Normalizes the address and asks for the user that has it.
    pub fn start(&self, input: LoginWithEmailInput) -> (res: Step<
        LoginWithEmailState,
        LoginWithEmailOutput,
    >)
        ensures
            !normalize_email(input.email@).contains('@') ==> (res matches Step::Finished(
                Err(DomainError::InvalidEmail(s)),
            ) && s@ == normalize_email(input.email@)),
            normalize_email(input.email@).contains('@') ==> (res matches Step::Perform(
                LoginWithEmailState::AwaitingUser { password },
                RepoRequest::FindUserByEmail { email },
            ) && password == input.password && email@ == normalize_email(input.email@)),
    {
        let email = match Email::new(input.email) {
            Ok(e) => e,
            Err(e) => {
                return Step::Finished(Err(e));
            },
        };
        Step::Perform(
            LoginWithEmailState::AwaitingUser { password: input.password },
            RepoRequest::FindUserByEmail { email },
        )
    }

    /// Checks the password of the user found and, when it matches, issues
    /// a session; then finishes once its refresh token is stored.
    pub fn resume(&self, state: LoginWithEmailState, reply: RepoReply, now: UtcDateTime) -> (res: Step<
        LoginWithEmailState,
        LoginWithEmailOutput,
    >)
        ensures
            match (state, reply) {
                (
                    LoginWithEmailState::AwaitingUser { password },
                    RepoReply::User(Err(e)),
                ) => res == Step::<LoginWithEmailState, LoginWithEmailOutput>::Finished(Err(e)),
                (
                    LoginWithEmailState::AwaitingUser { password },
                    RepoReply::User(Ok(None)),
                ) => res matches Step::Finished(Err(DomainError::UserNotFound)),
                (
                    LoginWithEmailState::AwaitingUser { password },
                    RepoReply::User(Ok(Some(user))),
                ) => match user.auth.auth_method {
                    AuthMethod::Password { password_hash, .. } => if password_matches(
                        password@,
                        password_hash@,
                    ) {
                        if session_possible(now) {
                            (res matches Step::Perform(
                                LoginWithEmailState::AwaitingTokenStored { output },
                                req,
                            ) && output.user_id == user.id@ && session_issued(
                                user.id,
                                self.secret(),
                                now,
                                output.access_token@,
                                output.refresh_token@,
                                req,
                            ))
                        } else {
                            res matches Step::Finished(Err(DomainError::Unexpected(_)))
                        }
                    } else {
                        res matches Step::Finished(Err(e)) && password_rejection(
                            password@,
                            password_hash@,
                            e,
                        )
                    },
                    _ => res matches Step::Finished(Err(DomainError::NotPasswordAuthUser)),
                },
                (
                    LoginWithEmailState::AwaitingTokenStored { output },
                    RepoReply::CreatedRefreshToken(Err(e)),
                ) => res == Step::<LoginWithEmailState, LoginWithEmailOutput>::Finished(Err(e)),
                (
                    LoginWithEmailState::AwaitingTokenStored { output },
                    RepoReply::CreatedRefreshToken(Ok(_)),
                ) => res == Step::<LoginWithEmailState, LoginWithEmailOutput>::Finished(Ok(output)),
                _ => res matches Step::Finished(Err(DomainError::Unexpected(_))),
            },
    {
        match state {
            LoginWithEmailState::AwaitingUser { password } => {
                let user = match reply {
                    RepoReply::User(Ok(Some(u))) => u,
                    RepoReply::User(Ok(None)) => {
                        return Step::Finished(Err(DomainError::UserNotFound));
                    },
                    RepoReply::User(Err(e)) => {
                        return Step::Finished(Err(e));
                    },
                    _ => {
                        return Step::Finished(Err(mismatched_reply()));
                    },
                };
                let checked = match &user.auth.auth_method {
                    AuthMethod::Password { password_hash, .. } => verify_password(
                        password.as_str(),
                        password_hash.value(),
                    ),
                    AuthMethod::OAuth { .. } => Err(DomainError::NotPasswordAuthUser),
                    AuthMethod::MobileDevice { .. } => Err(DomainError::NotPasswordAuthUser),
                };
                if let Err(e) = checked {
                    return Step::Finished(Err(e));
                }
                match issue_session(user.id, self.jwt_secret.as_str(), now) {
                    Ok((access_token, refresh_token, req)) => Step::Perform(
                        LoginWithEmailState::AwaitingTokenStored {
                            output: LoginWithEmailOutput {
                                user_id: user.id.value(),
                                access_token,
                                refresh_token,
                            },
                        },
                        req,
                    ),
                    Err(e) => Step::Finished(Err(e)),
                }
            },
            LoginWithEmailState::AwaitingTokenStored { output } => match reply {
                RepoReply::CreatedRefreshToken(Ok(_)) => Step::Finished(Ok(output)),
                RepoReply::CreatedRefreshToken(Err(e)) => Step::Finished(Err(e)),
                _ => Step::Finished(Err(mismatched_reply())),
            },
        }
    }
}

} // verus!
