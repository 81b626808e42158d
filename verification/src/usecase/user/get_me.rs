//! Reading one's own account.
use vstd::prelude::*;
use crate::domain::error::DomainError;
use crate::domain::types::UtcDateTime;
use crate::domain::user::user_auth::{method_email, AuthMethod};
use crate::domain::user::vo::UserId;
use crate::domain::user::User;
use crate::usecase::repo::{mismatched_reply, RepoReply, RepoRequest, Step};

verus! {

pub struct GetMeInput {
    pub user_id: i64,
}

pub struct GetMeOutput {
    pub user_id: i64,
    pub name: String,
    pub email: Option<String>,
    pub auth_kind: String,
    pub plan: String,
    pub plan_expires_at: Option<UtcDateTime>,
    pub created_at: UtcDateTime,
}

/// Where reading an account stands between two requests.
pub enum GetMeState {
    /// The user was asked for.
    AwaitingUser,
}

/// The name of an authentication method's kind.
pub open spec fn auth_kind_text(m: AuthMethod) -> Seq<char> {
    match m {
        AuthMethod::Password { .. } => "password_hash"@,
        AuthMethod::OAuth { .. } => "oauth"@,
        AuthMethod::MobileDevice { .. } => "mobile_device"@,
    }
}

/// Each kind of credentials is reported under its own fixed name: a
/// password account as `password_hash`, an OAuth account as `oauth`, a
/// device account as `mobile_device`; no two kinds share a name.
pub proof fn lemma_auth_kind_names(m: AuthMethod, other: AuthMethod)
    ensures
        m is Password ==> auth_kind_text(m) == "password_hash"@,
        m is OAuth ==> auth_kind_text(m) == "oauth"@,
        m is MobileDevice ==> auth_kind_text(m) == "mobile_device"@,
        auth_kind_text(m) == auth_kind_text(other) ==> (m is Password <==> other is Password) && (
        m is OAuth <==> other is OAuth),
{
    reveal_strlit("password_hash");
    reveal_strlit("oauth");
    reveal_strlit("mobile_device");
    assert("password_hash"@.len() == 13);
    assert("oauth"@.len() == 5);
    assert("mobile_device"@.len() == 13);
    assert("password_hash"@[0] != "mobile_device"@[0]);
}

/// `out` describes `user`.
pub open spec fn describes(out: GetMeOutput, user: User) -> bool {
    &&& out.user_id == user.id@
    &&& out.name@ == user.name@
    &&& match method_email(user.auth.auth_method) {
        Some(e) => out.email matches Some(s) && s@ == e@,
        None => out.email is None,
    }
    &&& out.auth_kind@ == auth_kind_text(user.auth.auth_method)
    &&& out.plan@ == user.plan.text()
    &&& out.plan_expires_at == user.plan_expires_at
    &&& out.created_at == user.created_at
}

pub struct GetMeUsecase {}

impl GetMeUsecase {
    pub fn new() -> (res: Self) {
        GetMeUsecase {  }
    }

    /// Asks for the user.
    pub fn start(&self, input: GetMeInput) -> (res: Step<GetMeState, GetMeOutput>)
        ensures
            res matches Step::Perform(GetMeState::AwaitingUser, RepoRequest::FindUserById { user_id })
                && user_id@ == input.user_id,
    {
        Step::Perform(
            GetMeState::AwaitingUser,
            RepoRequest::FindUserById { user_id: UserId::new(input.user_id) },
        )
    }

    /// Describes the user found.
    pub fn resume(&self, state: GetMeState, reply: RepoReply) -> (res: Step<GetMeState, GetMeOutput>)
        ensures
            match reply {
                RepoReply::User(Err(e)) => res == Step::<GetMeState, GetMeOutput>::Finished(Err(e)),
                RepoReply::User(Ok(None)) => res matches Step::Finished(
                    Err(DomainError::UserNotFound),
                ),
                RepoReply::User(Ok(Some(u))) => res matches Step::Finished(Ok(out)) && describes(
                    out,
                    u,
                ) && (u.auth.auth_method is Password ==> out.auth_kind@ == "password_hash"@) && (
                u.auth.auth_method is OAuth ==> out.auth_kind@ == "oauth"@) && (
                u.auth.auth_method is MobileDevice ==> out.auth_kind@ == "mobile_device"@),
                _ => res matches Step::Finished(Err(DomainError::Unexpected(_))),
            },
    {
        let user = match reply {
            RepoReply::User(Ok(Some(u))) => u,
            RepoReply::User(Ok(None)) => {
                return Step::Finished(Err(DomainError::UserNotFound));
            },
            RepoReply::User(Err(e)) => {
                return Step::Finished(Err(e));
            },
            _ => {
                return Step::Finished(Err(mismatched_reply()));
            },
        };
        let email = match user.auth.email() {
            Some(e) => Some(e.value().to_string()),
            None => None,
        };
        let auth_kind = match &user.auth.auth_method {
            AuthMethod::Password { .. } => "password_hash",
            AuthMethod::OAuth { .. } => "oauth",
            AuthMethod::MobileDevice { .. } => "mobile_device",
        }.to_string();
        Step::Finished(
            Ok(
                GetMeOutput {
                    user_id: user.id.value(),
                    name: user.name.value().to_string(),
                    email,
                    auth_kind,
                    plan: user.plan.as_str().to_string(),
                    plan_expires_at: user.plan_expires_at,
                    created_at: user.created_at,
                },
            ),
        )
    }
}

} // verus!
