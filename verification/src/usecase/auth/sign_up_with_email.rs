//! Opening an account with a name, an e-mail address and a password.
use vstd::prelude::*;
use crate::domain::types::UtcDateTime;
use crate::domain::error::DomainError;
use crate::domain::user::user_auth::AuthMethod;
use crate::domain::user::vo::email::normalize_email;
use crate::domain::user::vo::user_name::is_valid_user_name;
use crate::domain::user::vo::{Email, UserName};
use crate::domain::user::NewUser;
use vstd::utf8::encode_utf8;
use crate::usecase::auth::password_crypto::{hash_password, password_matches, MAX_PASSWORD_BYTES};
use crate::usecase::auth::session::{issue_session, session_issued, session_possible};
use crate::usecase::repo::{mismatched_reply, RepoReply, RepoRequest, Step};

verus! {

pub struct SignUpWithEmailInput {
    pub name: String,
    pub email: String,
    pub password: String,
}

pub struct SignUpWithEmailOutput {
    pub user_id: i64,
    pub access_token: String,
    pub refresh_token: String,
}

/// Where a sign-up stands between two requests.
pub enum SignUpWithEmailState {
    /// A user with the address was asked for.
    AwaitingExisting { name: UserName, email: Email, password: String },
    /// The new user was handed over for storing.
    AwaitingCreated,
    /// The refresh token's hash was handed over for storing.
    AwaitingTokenStored { output: SignUpWithEmailOutput },
}

pub struct SignUpWithEmailUsecase {
    jwt_secret: String,
}

impl SignUpWithEmailUsecase {
    pub closed spec fn secret(self) -> Seq<char> {
        self.jwt_secret@
    }

    pub fn new(jwt_secret: String) -> (res: Self)
        ensures
            res.secret() == jwt_secret@,
    {
        SignUpWithEmailUsecase { jwt_secret }
    }

    /// Validates the name, then the address, and asks whether the address
    /// is taken.
    pub fn start(&self, input: SignUpWithEmailInput) -> (res: Step<
        SignUpWithEmailState,
        SignUpWithEmailOutput,
    >)
        ensures
            !is_valid_user_name(input.name@) ==> (res matches Step::Finished(
                Err(DomainError::InvalidUserName(n)),
            ) && n@ == input.name@),
            is_valid_user_name(input.name@) && !normalize_email(input.email@).contains('@') ==> (
            res matches Step::Finished(Err(DomainError::InvalidEmail(s))) && s@ == normalize_email(
                input.email@,
            )),
            is_valid_user_name(input.name@) && normalize_email(input.email@).contains('@') ==> (
            res matches Step::Perform(
                SignUpWithEmailState::AwaitingExisting { name, email, password },
                RepoRequest::FindUserByEmail { email: asked },
            ) && name@ == input.name@ && email@ == normalize_email(input.email@) && asked == email
                && password == input.password),
    {
        let name = match UserName::new(input.name) {
            Ok(n) => n,
            Err(e) => {
                return Step::Finished(Err(e));
            },
        };
        let email = match Email::new(input.email) {
            Ok(e) => e,
            Err(e) => {
                return Step::Finished(Err(e));
            },
        };
        let asked = email.clone();
        Step::Perform(
            SignUpWithEmailState::AwaitingExisting { name, email, password: input.password },
            RepoRequest::FindUserByEmail { email: asked },
        )
    }

    /// A taken address is refused; otherwise the password is hashed and the
    /// user stored; a session is then issued for the stored user.
    pub fn resume(&self, state: SignUpWithEmailState, reply: RepoReply, now: UtcDateTime) -> (res: Step<
        SignUpWithEmailState,
        SignUpWithEmailOutput,
    >)
        ensures
            match (state, reply) {
                (SignUpWithEmailState::AwaitingExisting { .. }, RepoReply::User(Err(e))) => res
                    == Step::<SignUpWithEmailState, SignUpWithEmailOutput>::Finished(Err(e)),
                (SignUpWithEmailState::AwaitingExisting { .. }, RepoReply::User(Ok(Some(_)))) => res matches Step::Finished(
                    Err(DomainError::EmailAlreadyExists),
                ),
                (
                    SignUpWithEmailState::AwaitingExisting { name, email, password },
                    RepoReply::User(Ok(None)),
                ) => {
                    if encode_utf8(password@).len() <= MAX_PASSWORD_BYTES {
                        res matches Step::Perform(
                            SignUpWithEmailState::AwaitingCreated,
                            RepoRequest::CreateUser { new_user },
                        ) && new_user.name == name && (new_user.auth.method matches AuthMethod::Password {
                            email: stored,
                            password_hash,
                        } && stored == email && password_matches(password@, password_hash@))
                    } else {
                        res matches Step::Finished(Err(DomainError::Unexpected(_)))
                    }
                },
                (SignUpWithEmailState::AwaitingCreated, RepoReply::CreatedUser(Err(e))) => res
                    == Step::<SignUpWithEmailState, SignUpWithEmailOutput>::Finished(Err(e)),
                (SignUpWithEmailState::AwaitingCreated, RepoReply::CreatedUser(Ok(u))) => {
                    if session_possible(now) {
                        (res matches Step::Perform(
                            SignUpWithEmailState::AwaitingTokenStored { output },
                            req,
                        ) && output.user_id == u.id@ && session_issued(
                            u.id,
                            self.secret(),
                            now,
                            output.access_token@,
                            output.refresh_token@,
                            req,
                        ))
                    } else {
                        res matches Step::Finished(Err(DomainError::Unexpected(_)))
                    }
                },
                (
                    SignUpWithEmailState::AwaitingTokenStored { output },
                    RepoReply::CreatedRefreshToken(Err(e)),
                ) => res == Step::<SignUpWithEmailState, SignUpWithEmailOutput>::Finished(Err(e)),
                (
                    SignUpWithEmailState::AwaitingTokenStored { output },
                    RepoReply::CreatedRefreshToken(Ok(_)),
                ) => res == Step::<SignUpWithEmailState, SignUpWithEmailOutput>::Finished(
                    Ok(output),
                ),
                _ => res matches Step::Finished(Err(DomainError::Unexpected(_))),
            },
    {
        match state {
            SignUpWithEmailState::AwaitingExisting { name, email, password } => match reply {
                RepoReply::User(Ok(None)) => {
                    let password_hash = match hash_password(password.as_str()) {
                        Ok(h) => h,
                        Err(e) => {
                            return Step::Finished(Err(e));
                        },
                    };
                    let new_user = NewUser::new_password(name, email, password_hash);
                    Step::Perform(SignUpWithEmailState::AwaitingCreated, RepoRequest::CreateUser { new_user })
                },
                RepoReply::User(Ok(Some(_))) => Step::Finished(Err(DomainError::EmailAlreadyExists)),
                RepoReply::User(Err(e)) => Step::Finished(Err(e)),
                _ => Step::Finished(Err(mismatched_reply())),
            },
            SignUpWithEmailState::AwaitingCreated => match reply {
                RepoReply::CreatedUser(Ok(created)) => match issue_session(created.id, self.jwt_secret.as_str(), now) {
                    Ok((access_token, refresh_token, req)) => Step::Perform(
                        SignUpWithEmailState::AwaitingTokenStored {
                            output: SignUpWithEmailOutput {
                                user_id: created.id.value(),
                                access_token,
                                refresh_token,
                            },
                        },
                        req,
                    ),
                    Err(e) => Step::Finished(Err(e)),
                },
                RepoReply::CreatedUser(Err(e)) => Step::Finished(Err(e)),
                _ => Step::Finished(Err(mismatched_reply())),
            },
            SignUpWithEmailState::AwaitingTokenStored { output } => match reply {
                RepoReply::CreatedRefreshToken(Ok(_)) => Step::Finished(Ok(output)),
                RepoReply::CreatedRefreshToken(Err(e)) => Step::Finished(Err(e)),
                _ => Step::Finished(Err(mismatched_reply())),
            },
        }
    }
}

} // verus!
