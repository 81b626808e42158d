//! Renaming one's account.
use vstd::prelude::*;
use crate::domain::error::DomainError;
use crate::domain::user::vo::user_name::is_valid_user_name;
use crate::domain::user::vo::{UserId, UserName};
use crate::usecase::repo::{mismatched_reply, RepoReply, RepoRequest, Step};

verus! {

pub struct UpdateNameInput {
    pub user_id: i64,
    pub new_name: String,
}

/// Where a rename stands between two requests.
pub enum UpdateNameState {
    /// The user was asked for.
    AwaitingUser { new_name: String },
    /// The new name was handed over for storing.
    AwaitingUpdate,
}

pub struct UpdateNameUsecase {}

impl UpdateNameUsecase {
    pub fn new() -> (res: Self) {
        UpdateNameUsecase {  }
    }

    /// Asks for the user.
    pub fn start(&self, input: UpdateNameInput) -> (res: Step<UpdateNameState, ()>)
        ensures
            res matches Step::Perform(
                UpdateNameState::AwaitingUser { new_name },
                RepoRequest::FindUserById { user_id },
            ) && user_id@ == input.user_id && new_name == input.new_name,
    {
        Step::Perform(
            UpdateNameState::AwaitingUser { new_name: input.new_name },
            RepoRequest::FindUserById { user_id: UserId::new(input.user_id) },
        )
    }

    /// Validates the new name of the user found and stores it.
    pub fn resume(&self, state: UpdateNameState, reply: RepoReply) -> (res: Step<UpdateNameState, ()>)
        ensures
            match (state, reply) {
                (UpdateNameState::AwaitingUser { .. }, RepoReply::User(Err(e))) => res == Step::<
                    UpdateNameState,
                    (),
                >::Finished(Err(e)),
                (UpdateNameState::AwaitingUser { .. }, RepoReply::User(Ok(None))) => res matches Step::Finished(
                    Err(DomainError::UserNotFound),
                ),
                (UpdateNameState::AwaitingUser { new_name }, RepoReply::User(Ok(Some(u)))) => {
                    &&& !is_valid_user_name(new_name@) ==> (res matches Step::Finished(
                        Err(DomainError::InvalidUserName(n)),
                    ) && n@ == new_name@)
                    &&& is_valid_user_name(new_name@) ==> (res matches Step::Perform(
                        UpdateNameState::AwaitingUpdate,
                        RepoRequest::UpdateUserName { user_id, name },
                    ) && user_id == u.id && name@ == new_name@)
                },
                (UpdateNameState::AwaitingUpdate, RepoReply::Done(r)) => res == Step::<
                    UpdateNameState,
                    (),
                >::Finished(r),
                _ => res matches Step::Finished(Err(DomainError::Unexpected(_))),
            },
    {
        match state {
            UpdateNameState::AwaitingUser { new_name } => match reply {
                RepoReply::User(Ok(Some(user))) => {
                    let name = match UserName::new(new_name) {
                        Ok(n) => n,
                        Err(e) => {
                            return Step::Finished(Err(e));
                        },
                    };
                    Step::Perform(
                        UpdateNameState::AwaitingUpdate,
                        RepoRequest::UpdateUserName { user_id: user.id, name },
                    )
                },
                RepoReply::User(Ok(None)) => Step::Finished(Err(DomainError::UserNotFound)),
                RepoReply::User(Err(e)) => Step::Finished(Err(e)),
                _ => Step::Finished(Err(mismatched_reply())),
            },
            UpdateNameState::AwaitingUpdate => match reply {
                RepoReply::Done(r) => Step::Finished(r),
                _ => Step::Finished(Err(mismatched_reply())),
            },
        }
    }
}

} // verus!
