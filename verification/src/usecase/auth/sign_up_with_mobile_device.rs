//! Signing in with a mobile device: the device's account is used, or made.
use vstd::prelude::*;
use crate::domain::types::UtcDateTime;
use vstd::utf8::{decode_utf8, encode_utf8, is_char_boundary};
use crate::domain::error::concat_str;
use crate::domain::error::DomainError;
use crate::domain::user::user_auth::AuthMethod;
use crate::domain::user::vo::user_name::is_valid_user_name;
use crate::domain::user::vo::{DeviceId, UserName};
use crate::domain::user::NewUser;
use crate::usecase::auth::session::{issue_session, session_issued, session_possible};
use crate::usecase::repo::{mismatched_reply, RepoReply, RepoRequest, Step};

verus! {

pub struct SignUpWithMobileDeviceInput {
    pub device_id: String,
    pub name: Option<String>,
}

pub struct SignUpWithMobileDeviceOutput {
    pub user_id: i64,
    pub access_token: String,
    pub refresh_token: String,
    pub is_new_user: bool,
}

/// Where a device sign-in stands between two requests.
pub enum SignUpWithMobileDeviceState {
    /// The account of the device was asked for.
    AwaitingExisting { device_id: DeviceId, name: Option<String> },
    /// A new account for the device was handed over for storing.
    AwaitingCreated,
    /// The refresh token's hash was handed over for storing.
    AwaitingTokenStored { output: SignUpWithMobileDeviceOutput },
}

/// The name a new device account gets when none is given: `user_`
/// followed by the first 8 bytes of the device identifier.
pub open spec fn default_device_user_name(device_id: Seq<char>) -> Seq<char> {
    "user_"@ + decode_utf8(encode_utf8(device_id).subrange(0, 8))
}

/// The first 8 bytes of the device identifier end on a character
/// boundary, so they can be taken as a name (the identifier is at least 8
/// bytes long).
pub open spec fn has_name_prefix(device_id: Seq<char>) -> bool {
    is_char_boundary(encode_utf8(device_id), 8)
}

/// The name a new account for the device gets.
pub open spec fn chosen_device_user_name(device_id: Seq<char>, name: Option<String>) -> Seq<char> {
    match name {
        Some(n) => n@,
        None => default_device_user_name(device_id),
    }
}

/// The name a new device account gets is the given name exactly, and only
/// without one is it `user_` followed by the first 8 bytes of the device
/// identifier.
pub proof fn lemma_chosen_device_user_name(device_id: Seq<char>, name: Option<String>)
    ensures
        name matches Some(n) ==> chosen_device_user_name(device_id, name) == n@,
        name is None ==> chosen_device_user_name(device_id, name) == "user_"@ + decode_utf8(
            encode_utf8(device_id).subrange(0, 8),
        ),
{
}

/// A reply that makes the use case name a new account from the device
/// identifier.
pub open spec fn needs_default_name(state: SignUpWithMobileDeviceState, reply: RepoReply) -> bool {
    state matches SignUpWithMobileDeviceState::AwaitingExisting { name: None, .. } && reply matches RepoReply::User(Ok(None))
}

pub struct SignUpWithMobileDeviceUsecase {
    jwt_token: String,
}

impl SignUpWithMobileDeviceUsecase {
    pub closed spec fn secret(self) -> Seq<char> {
        self.jwt_token@
    }

    pub fn new(jwt_token: String) -> (res: Self)
        ensures
            res.secret() == jwt_token@,
    {
        SignUpWithMobileDeviceUsecase { jwt_token }
    }

    /// Asks for the account of the device.
    pub fn start(&self, input: SignUpWithMobileDeviceInput) -> (res: Step<
        SignUpWithMobileDeviceState,
        SignUpWithMobileDeviceOutput,
    >)
        ensures
            res matches Step::Perform(
                SignUpWithMobileDeviceState::AwaitingExisting { device_id, name },
                RepoRequest::FindUserByDeviceId { device_id: asked },
            ) && device_id@ == input.device_id@ && asked == device_id && name == input.name,
    {
        let device_id = DeviceId::new(input.device_id);
        let asked = device_id.clone();
        Step::Perform(
            SignUpWithMobileDeviceState::AwaitingExisting { device_id, name: input.name },
            RepoRequest::FindUserByDeviceId { device_id: asked },
        )
    }

    /// A known device signs in to its account; an unknown one gets a new
    /// account, named as given or after the device. Either way a session is
    /// issued, and the result comes once its refresh token is stored.
    pub fn resume(&self, state: SignUpWithMobileDeviceState, reply: RepoReply, now: UtcDateTime) -> (res: Step<
        SignUpWithMobileDeviceState,
        SignUpWithMobileDeviceOutput,
    >)
        requires
            needs_default_name(state, reply) ==> has_name_prefix(state->device_id@),
        ensures
            match (state, reply) {
                (SignUpWithMobileDeviceState::AwaitingExisting { .. }, RepoReply::User(Err(e))) => res
                    == Step::<SignUpWithMobileDeviceState, SignUpWithMobileDeviceOutput>::Finished(
                    Err(e),
                ),
                (
                    SignUpWithMobileDeviceState::AwaitingExisting { .. },
                    RepoReply::User(Ok(Some(u))),
                ) => {
                    if session_possible(now) {
                        (res matches Step::Perform(
                            SignUpWithMobileDeviceState::AwaitingTokenStored { output },
                            req,
                        ) && output.user_id == u.id@ && !output.is_new_user && session_issued(
                            u.id,
                            self.secret(),
                            now,
                            output.access_token@,
                            output.refresh_token@,
                            req,
                        ))
                    } else {
                        res matches Step::Finished(Err(DomainError::Unexpected(_)))
                    }
                },
                (
                    SignUpWithMobileDeviceState::AwaitingExisting { device_id, name },
                    RepoReply::User(Ok(None)),
                ) => {
                    let chosen = chosen_device_user_name(device_id@, name);
                    &&& !is_valid_user_name(chosen) ==> (res matches Step::Finished(
                        Err(DomainError::InvalidUserName(n)),
                    ) && n@ == chosen)
                    &&& is_valid_user_name(chosen) ==> (res matches Step::Perform(
                        SignUpWithMobileDeviceState::AwaitingCreated,
                        RepoRequest::CreateUser { new_user },
                    ) && new_user.name@ == chosen && new_user.auth.method == (
                    AuthMethod::MobileDevice { device_id }))
                    &&& match name {
                        Some(given) => if is_valid_user_name(given@) {
                            res matches Step::Perform(
                                SignUpWithMobileDeviceState::AwaitingCreated,
                                RepoRequest::CreateUser { new_user },
                            ) && new_user.name@ == given@
                        } else {
                            res matches Step::Finished(Err(DomainError::InvalidUserName(n))) && n@
                                == given@
                        },
                        None => res matches Step::Perform(_, RepoRequest::CreateUser { new_user })
                            ==> new_user.name@ == "user_"@ + decode_utf8(
                            encode_utf8(device_id@).subrange(0, 8),
                        ),
                    }
                },
                (SignUpWithMobileDeviceState::AwaitingCreated, RepoReply::CreatedUser(Err(e))) => res
                    == Step::<SignUpWithMobileDeviceState, SignUpWithMobileDeviceOutput>::Finished(
                    Err(e),
                ),
                (SignUpWithMobileDeviceState::AwaitingCreated, RepoReply::CreatedUser(Ok(u))) => {
                    if session_possible(now) {
                        (res matches Step::Perform(
                            SignUpWithMobileDeviceState::AwaitingTokenStored { output },
                            req,
                        ) && output.user_id == u.id@ && output.is_new_user && session_issued(
                            u.id,
                            self.secret(),
                            now,
                            output.access_token@,
                            output.refresh_token@,
                            req,
                        ))
                    } else {
                        res matches Step::Finished(Err(DomainError::Unexpected(_)))
                    }
                },
                (
                    SignUpWithMobileDeviceState::AwaitingTokenStored { output },
                    RepoReply::CreatedRefreshToken(Err(e)),
                ) => res == Step::<SignUpWithMobileDeviceState, SignUpWithMobileDeviceOutput>::Finished(
                    Err(e),
                ),
                (
                    SignUpWithMobileDeviceState::AwaitingTokenStored { output },
                    RepoReply::CreatedRefreshToken(Ok(_)),
                ) => res == Step::<SignUpWithMobileDeviceState, SignUpWithMobileDeviceOutput>::Finished(
                    Ok(output),
                ),
                _ => res matches Step::Finished(Err(DomainError::Unexpected(_))),
            },
    {
        match state {
            SignUpWithMobileDeviceState::AwaitingExisting { device_id, name } => match reply {
                RepoReply::User(Ok(Some(existing))) => self.session_for(existing.id, false, now),
                RepoReply::User(Ok(None)) => {
                    let name = match name {
                        Some(n) => n,
                        None => {
                            let (prefix, _) = device_id.value().split_at(8);
                            proof {
                                vstd::utf8::encode_utf8_decode_utf8(prefix@);
                            }
                            concat_str("user_", prefix)
                        },
                    };
                    let user_name = match UserName::new(name) {
                        Ok(n) => n,
                        Err(e) => {
                            return Step::Finished(Err(e));
                        },
                    };
                    let new_user = NewUser::new_mobile_device(user_name, device_id);
                    Step::Perform(
                        SignUpWithMobileDeviceState::AwaitingCreated,
                        RepoRequest::CreateUser { new_user },
                    )
                },
                RepoReply::User(Err(e)) => Step::Finished(Err(e)),
                _ => Step::Finished(Err(mismatched_reply())),
            },
            SignUpWithMobileDeviceState::AwaitingCreated => match reply {
                RepoReply::CreatedUser(Ok(created)) => self.session_for(created.id, true, now),
                RepoReply::CreatedUser(Err(e)) => Step::Finished(Err(e)),
                _ => Step::Finished(Err(mismatched_reply())),
            },
            SignUpWithMobileDeviceState::AwaitingTokenStored { output } => match reply {
                RepoReply::CreatedRefreshToken(Ok(_)) => Step::Finished(Ok(output)),
                RepoReply::CreatedRefreshToken(Err(e)) => Step::Finished(Err(e)),
                _ => Step::Finished(Err(mismatched_reply())),
            },
        }
    }

    fn session_for(&self, user_id: crate::domain::user::vo::UserId, is_new_user: bool, now: UtcDateTime) -> (res: Step<
        SignUpWithMobileDeviceState,
        SignUpWithMobileDeviceOutput,
    >)
        ensures
            ({
                if session_possible(now) {
                    (res matches Step::Perform(
                    SignUpWithMobileDeviceState::AwaitingTokenStored { output },
                    req,
                ) && output.user_id == user_id@ && output.is_new_user == is_new_user && session_issued(
                    user_id,
                    self.secret(),
                        now,
                    output.access_token@,
                    output.refresh_token@,
                    req,
                ))
                } else {
                    res matches Step::Finished(Err(DomainError::Unexpected(_)))
                }
            }),
    {
        match issue_session(user_id, self.jwt_token.as_str(), now) {
            Ok((access_token, refresh_token, req)) => Step::Perform(
                SignUpWithMobileDeviceState::AwaitingTokenStored {
                    output: SignUpWithMobileDeviceOutput {
                        user_id: user_id.value(),
                        access_token,
                        refresh_token,
                        is_new_user,
                    },
                },
                req,
            ),
            Err(e) => Step::Finished(Err(e)),
        }
    }
}

} // verus!
