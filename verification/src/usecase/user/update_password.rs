//! Changing one's password.
use vstd::prelude::*;
use crate::domain::types::UtcDateTime;
use crate::domain::error::DomainError;
use crate::domain::user::user_auth::AuthMethod;
use crate::domain::user::vo::UserId;
use crate::usecase::auth::login_with_email::password_rejection;
use vstd::utf8::encode_utf8;
use crate::usecase::auth::password_crypto::{
    hash_password, password_matches, verify_password, MAX_PASSWORD_BYTES,
};
use crate::usecase::repo::{mismatched_reply, RepoReply, RepoRequest, Step};

verus! {

pub struct UpdatePasswordInput {
    pub user_id: i64,
    pub current_password: String,
    pub new_password: String,
}

/// Where a password change stands between two requests.
pub enum UpdatePasswordState {
    /// The user was asked for.
    AwaitingUser { current_password: String, new_password: String },
    /// The changed credentials were handed over for storing.
    AwaitingSaved,
}

pub struct UpdatePasswordUsecase {}

impl UpdatePasswordUsecase {
    pub fn new() -> (res: Self) {
        UpdatePasswordUsecase {  }
    }

    /// Asks for the user.
    pub fn start(&self, input: UpdatePasswordInput) -> (res: Step<UpdatePasswordState, ()>)
        ensures
            res matches Step::Perform(
                UpdatePasswordState::AwaitingUser { current_password, new_password },
                RepoRequest::FindUserById { user_id },
            ) && user_id@ == input.user_id && current_password == input.current_password
                && new_password == input.new_password,
    {
        Step::Perform(
            UpdatePasswordState::AwaitingUser {
                current_password: input.current_password,
                new_password: input.new_password,
            },
            RepoRequest::FindUserById { user_id: UserId::new(input.user_id) },
        )
    }

    /// Checks the current password of the user found, hashes the new one
    /// and stores the changed credentials, stamped with `now`, which keep the
    /// user and the address and accept the new password.
    pub fn resume(&self, state: UpdatePasswordState, reply: RepoReply, now: UtcDateTime) -> (res: Step<
        UpdatePasswordState,
        (),
    >)
        ensures
            match (state, reply) {
                (UpdatePasswordState::AwaitingUser { .. }, RepoReply::User(Err(e))) => res == Step::<
                    UpdatePasswordState,
                    (),
                >::Finished(Err(e)),
                (UpdatePasswordState::AwaitingUser { .. }, RepoReply::User(Ok(None))) => res matches Step::Finished(
                    Err(DomainError::UserNotFound),
                ),
                (
                    UpdatePasswordState::AwaitingUser { current_password, new_password },
                    RepoReply::User(Ok(Some(u))),
                ) => match u.auth.auth_method {
                    AuthMethod::Password { email, password_hash } => if password_matches(
                        current_password@,
                        password_hash@,
                    ) {
                        if encode_utf8(new_password@).len() <= MAX_PASSWORD_BYTES {
                            res matches Step::Perform(
                                UpdatePasswordState::AwaitingSaved,
                                RepoRequest::SaveUserAuth { auth },
                            ) && auth.user_id == u.auth.user_id && auth.created_at == u.auth.created_at
                                && auth.updated_at == now && (auth.auth_method matches AuthMethod::Password {
                                email: kept,
                                password_hash: new_hash,
                            } && kept == email && password_matches(new_password@, new_hash@))
                        } else {
                            res matches Step::Finished(Err(DomainError::Unexpected(_)))
                        }
                    } else {
                        res matches Step::Finished(Err(e)) && password_rejection(
                            current_password@,
                            password_hash@,
                            e,
                        )
                    },
                    _ => res matches Step::Finished(Err(DomainError::NotPasswordAuthUser)),
                },
                (UpdatePasswordState::AwaitingSaved, RepoReply::Done(r)) => res == Step::<
                    UpdatePasswordState,
                    (),
                >::Finished(r),
                _ => res matches Step::Finished(Err(DomainError::Unexpected(_))),
            },
    {
        match state {
            UpdatePasswordState::AwaitingUser { current_password, new_password } => {
                let mut user = match reply {
                    RepoReply::User(Ok(Some(u))) => u,
                    RepoReply::User(Ok(None)) => {
                        return Step::Finished(Err(DomainError::UserNotFound));
                    },
                    RepoReply::User(Err(e)) => {
                        return Step::Finished(Err(e));
                    },
                    _ => {
                        return Step::Finished(Err(mismatched_reply()));
                    },
                };
                let checked = match &user.auth.auth_method {
                    AuthMethod::Password { password_hash, .. } => verify_password(
                        current_password.as_str(),
                        password_hash.value(),
                    ),
                    AuthMethod::OAuth { .. } => Err(DomainError::NotPasswordAuthUser),
                    AuthMethod::MobileDevice { .. } => Err(DomainError::NotPasswordAuthUser),
                };
                if let Err(e) = checked {
                    return Step::Finished(Err(e));
                }
                let new_hash = match hash_password(new_password.as_str()) {
                    Ok(h) => h,
                    Err(e) => {
                        return Step::Finished(Err(e));
                    },
                };
                if let Err(e) = user.auth.change_password_at(new_hash, now) {
                    return Step::Finished(Err(e));
                }
                Step::Perform(UpdatePasswordState::AwaitingSaved, RepoRequest::SaveUserAuth { auth: user.auth })
            },
            UpdatePasswordState::AwaitingSaved => match reply {
                RepoReply::Done(r) => Step::Finished(r),
                _ => Step::Finished(Err(mismatched_reply())),
            },
        }
    }
}

} // verus!
