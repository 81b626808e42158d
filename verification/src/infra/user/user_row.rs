//! Reading a stored user and its credentials back into the domain, and
//! choosing what of changed credentials is written back.
use vstd::prelude::*;
use crate::domain::error::{concat_str, error_message, DomainError};
use crate::domain::types::UtcDateTime;
use crate::domain::user::user_auth::{AuthMethod, UserAuth};
use crate::domain::user::vo::email::normalize_email;
use crate::domain::user::vo::user_name::is_valid_user_name;
use crate::domain::user::vo::{
    DeviceId, Email, OAuthProvider, PasswordHash, ProviderUserId, UserId, UserName, UserPlan,
};
use crate::domain::user::User;
use crate::text::str_eq;

verus! {

broadcast use vstd::string::group_string_axioms;

/// Stored credentials, by kind, with the columns that kind needs.
#[derive(Debug)]
#[allow(inconsistent_fields)]
pub enum AuthRow {
    Password {
        email: String,
        password_hash: String,
        created_at: UtcDateTime,
        updated_at: UtcDateTime,
    },
    OAuth {
        email: Option<String>,
        provider: OAuthProvider,
        provider_user_id: String,
        created_at: UtcDateTime,
        updated_at: UtcDateTime,
    },
    MobileDevice { device_id: String, created_at: UtcDateTime, updated_at: UtcDateTime },
}

/// A stored user joined with its credentials.
#[derive(Debug)]
pub struct UserRow {
    pub id: i64,
    pub name: String,
    pub plan: String,
    pub plan_expires_at: Option<UtcDateTime>,
    pub created_at: UtcDateTime,
    pub updated_at: UtcDateTime,
    pub kind: AuthRow,
}

/// The unexpected error carrying `text`.
pub open spec fn unexpected(e: DomainError, text: Seq<char>) -> bool {
    e matches DomainError::Unexpected(s) && s@ == text
}

/// A column that must hold a value for this kind of credentials.
fn required(column: Option<String>, message: &str) -> (res: Result<String, DomainError>)
    ensures
        match column {
            Some(v) => res == Ok::<String, DomainError>(v),
            None => res matches Err(e) && unexpected(e, message@),
        },
{
    match column {
        Some(v) => Ok(v),
        None => Err(DomainError::Unexpected(message.to_string())),
    }
}

impl AuthRow {
    /// Reads the credential columns for the stored kind: `password_hash`
    /// needs the address and the hash, `oauth` a known provider and the
    /// provider's user identifier, `mobile_device` the device identifier.
    /// A missing column or an unknown kind is an unexpected error.
    pub fn from_row(
        kind: &str,
        email: Option<String>,
        password_hash: Option<String>,
        provider: Option<String>,
        provider_user_id: Option<String>,
        device_id: Option<String>,
        created_at: UtcDateTime,
        updated_at: UtcDateTime,
    ) -> (res: Result<AuthRow, DomainError>)
        ensures
            kind@ == "password_hash"@ ==> {
                &&& email is None ==> (res matches Err(e) && unexpected(e, "email is null"@))
                &&& email is Some && password_hash is None ==> (res matches Err(e) && unexpected(
                    e,
                    "password_hash is null"@,
                ))
                &&& email is Some && password_hash is Some ==> res == Ok::<AuthRow, DomainError>(
                    AuthRow::Password {
                        email: email->0,
                        password_hash: password_hash->0,
                        created_at,
                        updated_at,
                    },
                )
            },
            kind@ == "oauth"@ ==> {
                &&& provider is None ==> (res matches Err(e) && unexpected(e, "provider is null"@))
                &&& provider is Some && OAuthProvider::parse_text(provider->0@) is None ==> (
                res matches Err(e) && unexpected(e, "invalid OAuth provider"@))
                &&& provider is Some && OAuthProvider::parse_text(provider->0@) is Some
                    && provider_user_id is None ==> (res matches Err(e) && unexpected(
                    e,
                    "provider_user_id is null"@,
                ))
                &&& provider is Some && OAuthProvider::parse_text(provider->0@) is Some
                    && provider_user_id is Some ==> res == Ok::<AuthRow, DomainError>(
                    AuthRow::OAuth {
                        email,
                        provider: OAuthProvider::parse_text(provider->0@)->0,
                        provider_user_id: provider_user_id->0,
                        created_at,
                        updated_at,
                    },
                )
            },
            kind@ == "mobile_device"@ ==> {
                &&& device_id is None ==> (res matches Err(e) && unexpected(e, "device_id is null"@))
                &&& device_id is Some ==> res == Ok::<AuthRow, DomainError>(
                    AuthRow::MobileDevice { device_id: device_id->0, created_at, updated_at },
                )
            },
            kind@ != "password_hash"@ && kind@ != "oauth"@ && kind@ != "mobile_device"@ ==> (
            res matches Err(e) && unexpected(e, "unknown auth kind: "@ + kind@)),
    {
        proof {
            reveal_strlit("password_hash");
            reveal_strlit("oauth");
            reveal_strlit("mobile_device");
            assert("password_hash"@.len() == 13);
            assert("oauth"@.len() == 5);
            assert("mobile_device"@.len() == 13);
            assert("password_hash"@[0] != "mobile_device"@[0]);
        }
        if str_eq(kind, "password_hash") {
            let email = required(email, "email is null")?;
            let password_hash = required(password_hash, "password_hash is null")?;
            Ok(AuthRow::Password { email, password_hash, created_at, updated_at })
        } else if str_eq(kind, "oauth") {
            let provider = required(provider, "provider is null")?;
            let provider = match OAuthProvider::from_str(provider.as_str()) {
                Some(p) => p,
                None => {
                    return Err(DomainError::Unexpected("invalid OAuth provider".to_string()));
                },
            };
            let provider_user_id = required(provider_user_id, "provider_user_id is null")?;
            Ok(AuthRow::OAuth { email, provider, provider_user_id, created_at, updated_at })
        } else if str_eq(kind, "mobile_device") {
            let device_id = required(device_id, "device_id is null")?;
            Ok(AuthRow::MobileDevice { device_id, created_at, updated_at })
        } else {
            Err(DomainError::Unexpected(concat_str("unknown auth kind: ", kind)))
        }
    }
}

/// The address column of stored credentials, if it must be read as an address.
pub open spec fn row_email(kind: AuthRow) -> Option<Seq<char>> {
    match kind {
        AuthRow::Password { email, .. } => Some(email@),
        AuthRow::OAuth { email: Some(e), .. } => Some(e@),
        _ => None,
    }
}

/// The address column, if there is one to read, reads as an address.
pub open spec fn row_email_reads(kind: AuthRow) -> bool {
    match row_email(kind) {
        Some(raw) => normalize_email(raw).contains('@'),
        None => true,
    }
}

/// The credentials `m` read from `kind` (whose address, if any, reads).
pub open spec fn method_of_row(kind: AuthRow, m: AuthMethod) -> bool {
    match kind {
        AuthRow::Password { email, password_hash, .. } => m matches AuthMethod::Password {
            email: e,
            password_hash: h,
        } && e@ == normalize_email(email@) && h@ == password_hash@,
        AuthRow::OAuth { email, provider, provider_user_id, .. } => m matches AuthMethod::OAuth {
            email: e,
            provider: p,
            provider_user_id: id,
        } && p == provider && id@ == provider_user_id@ && match email {
            Some(raw) => e matches Some(x) && x@ == normalize_email(raw@),
            None => e is None,
        },
        AuthRow::MobileDevice { device_id, .. } => m matches AuthMethod::MobileDevice {
            device_id: d,
        } && d@ == device_id@,
    }
}

/// When the credentials were created and last changed.
pub open spec fn row_times(kind: AuthRow) -> (UtcDateTime, UtcDateTime) {
    match kind {
        AuthRow::Password { created_at, updated_at, .. } => (created_at, updated_at),
        AuthRow::OAuth { created_at, updated_at, .. } => (created_at, updated_at),
        AuthRow::MobileDevice { created_at, updated_at, .. } => (created_at, updated_at),
    }
}

/// Reads an address column; an address that does not read is an
/// unexpected error carrying the text of the rejection.
fn read_email(raw: String) -> (res: Result<Email, DomainError>)
    ensures
        normalize_email(raw@).contains('@') ==> (res matches Ok(e) && e@ == normalize_email(raw@)),
        !normalize_email(raw@).contains('@') ==> (res matches Err(e) && unexpected(
            e,
            "invalid email: "@ + normalize_email(raw@),
        )),
{
    match Email::new(raw) {
        Ok(e) => Ok(e),
        Err(e) => Err(DomainError::Unexpected(e.message())),
    }
}

impl UserRow {
    /// Reads the row as a user: the name (which must be valid), then the
    /// credentials (whose address must read), then the plan. A row that
    /// does not read is an unexpected error.
    pub fn into_domain(self) -> (res: Result<User, DomainError>)
        ensures
            !is_valid_user_name(self.name@) ==> (res matches Err(e) && unexpected(
                e,
                "invalid user name: "@ + self.name@,
            )),
            row_email(self.kind) matches Some(raw) ==> (is_valid_user_name(self.name@)
                && !normalize_email(raw).contains('@') ==> (res matches Err(e) && unexpected(
                e,
                "invalid email: "@ + normalize_email(raw),
            ))),
            is_valid_user_name(self.name@) && row_email_reads(self.kind) && UserPlan::parse_text(
                self.plan@,
            ) is None ==> (res matches Err(e) && unexpected(e, "unknown plan: "@ + self.plan@)),
            res is Ok <==> (is_valid_user_name(self.name@) && row_email_reads(self.kind)
                && UserPlan::parse_text(self.plan@) is Some),
            res matches Ok(u) ==> {
                &&& u.id@ == self.id
                &&& u.name@ == self.name@
                &&& u.auth.user_id == u.id
                &&& method_of_row(self.kind, u.auth.auth_method)
                &&& (u.auth.created_at, u.auth.updated_at) == row_times(self.kind)
                &&& Some(u.plan) == UserPlan::parse_text(self.plan@)
                &&& u.plan_expires_at == self.plan_expires_at
                &&& u.created_at == self.created_at
                &&& u.updated_at == self.updated_at
            },
    {
        let user_id = UserId::new(self.id);
        let name = match UserName::new(self.name) {
            Ok(n) => n,
            Err(e) => {
                return Err(DomainError::Unexpected(e.message()));
            },
        };
        let (auth_method, auth_created_at, auth_updated_at) = match self.kind {
            AuthRow::Password { email, password_hash, created_at, updated_at } => {
                let email = read_email(email)?;
                (
                    AuthMethod::Password { email, password_hash: PasswordHash::new(password_hash) },
                    created_at,
                    updated_at,
                )
            },
            AuthRow::OAuth { email, provider, provider_user_id, created_at, updated_at } => {
                let email = match email {
                    Some(raw) => Some(read_email(raw)?),
                    None => None,
                };
                (
                    AuthMethod::OAuth {
                        email,
                        provider,
                        provider_user_id: ProviderUserId::new(provider_user_id),
                    },
                    created_at,
                    updated_at,
                )
            },
            AuthRow::MobileDevice { device_id, created_at, updated_at } => (
                AuthMethod::MobileDevice { device_id: DeviceId::new(device_id) },
                created_at,
                updated_at,
            ),
        };
        let plan = match UserPlan::from_str(self.plan.as_str()) {
            Some(p) => p,
            None => {
                return Err(DomainError::Unexpected(concat_str("unknown plan: ", self.plan.as_str())));
            },
        };
        Ok(
            User {
                id: user_id,
                name,
                auth: UserAuth {
                    user_id,
                    auth_method,
                    created_at: auth_created_at,
                    updated_at: auth_updated_at,
                },
                plan,
                plan_expires_at: self.plan_expires_at,
                created_at: self.created_at,
                updated_at: self.updated_at,
            },
        )
    }
}

/// What of changed credentials the store writes back: the password hash
/// of password credentials. Credentials of the other kinds are never
/// written back, and asking for it is an unexpected error.
pub fn password_hash_to_save(auth: &UserAuth) -> (res: Result<&PasswordHash, DomainError>)
    ensures
        match auth.auth_method {
            AuthMethod::Password { password_hash, .. } => res matches Ok(h) && *h == password_hash,
            AuthMethod::OAuth { .. } => res matches Err(e) && unexpected(
                e,
                "cannot save OAuth auth medhod"@,
            ),
            AuthMethod::MobileDevice { .. } => res matches Err(e) && unexpected(
                e,
                "cannot save mobile device auth method"@,
            ),
        },
{
    match &auth.auth_method {
        AuthMethod::Password { password_hash, .. } => Ok(password_hash),
        AuthMethod::OAuth { .. } => Err(
            DomainError::Unexpected("cannot save OAuth auth medhod".to_string()),
        ),
        AuthMethod::MobileDevice { .. } => Err(
            DomainError::Unexpected("cannot save mobile device auth method".to_string()),
        ),
    }
}

} // verus!
