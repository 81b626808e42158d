//! Google sign-in callback.
use vstd::prelude::*;
use crate::domain::user::vo::OAuthProvider;
use crate::infra::oauth::google::GoogleUserInfo;
use crate::usecase::auth::sign_up_with_oauth::{SignUpWithOAuthInput, SignUpWithOAuthOutput};

verus! {

/// The query Google redirects back with.
pub struct CallbackQuery {
    pub code: String,
}

pub struct OAuthResponse {
    pub user_id: i64,
    pub token: String,
    pub is_new_user: bool,
}

/// The name a Google account gets when Google reports none.
pub open spec fn google_user_name(info_name: Option<String>) -> Seq<char> {
    match info_name {
        Some(n) => n@,
        None => "Google user"@,
    }
}

/// A Google sign-in: the Google identity, the reported name (or "Google
/// user") and the reported address.
pub fn google_sign_up_input(info: GoogleUserInfo) -> (res: SignUpWithOAuthInput)
    ensures
        res.provider == OAuthProvider::Google,
        res.provider_user_id == info.sub,
        res.name@ == google_user_name(info.name),
        res.email == info.email,
{
    let name = match info.name {
        Some(n) => n,
        None => "Google user".to_string(),
    };
    SignUpWithOAuthInput {
        provider: OAuthProvider::Google,
        provider_user_id: info.sub,
        name,
        email: info.email,
    }
}

impl OAuthResponse {
    /// The account, its access token and whether it was just made.
    pub fn from_output(output: SignUpWithOAuthOutput) -> (res: Self)
        ensures
            res.user_id == output.user_id,
            res.token == output.access_token,
            res.is_new_user == output.is_new_user,
    {
        OAuthResponse {
            user_id: output.user_id,
            token: output.access_token,
            is_new_user: output.is_new_user,
        }
    }
}

} // verus!
