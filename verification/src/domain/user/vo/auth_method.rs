use vstd::prelude::*;
use crate::domain::user::vo::{Email, OAuthProvider, PasswordHash, ProviderUserId};

verus! {

/// How an account proves its identity, in the two forms the first storage
/// layout knew: an e-mail address with a password, or an OAuth identity.
#[derive(Debug, Clone)]
pub enum AuthMethod {
    Password { email: Email, password_hash: PasswordHash },
    OAuth { provider: OAuthProvider, provider_user_id: ProviderUserId },
}

} // verus!
