//! The errors the domain and its use cases report.
use vstd::prelude::*;
use crate::domain::user::vo::UserName;

verus! {

broadcast use vstd::string::group_string_axioms;

/// Everything that can go wrong in the domain and its use cases.
#[derive(Debug, Clone)]
pub enum DomainError {
    /// A user name that is empty or longer than 30 characters.
    InvalidUserName(UserName),
    /// An address without `@` (carried in normalized form).
    InvalidEmail(String),
    /// A request body that could not be read.
    InvalidRequest(String),
    /// The account does not sign in with a password.
    NotPasswordAuthUser,
    /// The password given does not match the stored hash.
    IncorrectPassword,
    /// Missing, unknown, expired or revoked credentials.
    Unauthorized,
    /// No user with the given key.
    UserNotFound,
    /// A failure outside the domain rules (storage, clock, crypto, stored data).
    Unexpected(String),
    /// An account with this address exists already.
    EmailAlreadyExists,
}

/// The human-readable text of an error.
pub open spec fn error_message(e: DomainError) -> Seq<char> {
    match e {
        DomainError::InvalidUserName(n) => "invalid user name: "@ + n@,
        DomainError::InvalidEmail(s) => "invalid email: "@ + s@,
        DomainError::InvalidRequest(s) => "invalid request: "@ + s@,
        DomainError::NotPasswordAuthUser => "not a password auth user"@,
        DomainError::IncorrectPassword => "current password is incorrect"@,
        DomainError::Unauthorized => "unauthorized"@,
        DomainError::UserNotFound => "user not found"@,
        DomainError::Unexpected(s) => "unexpected error: "@ + s@,
        DomainError::EmailAlreadyExists => "email already exists"@,
    }
}

/// `prefix` followed by `rest`.
pub fn concat_str(prefix: &str, rest: &str) -> (res: String)
    ensures
        res@ == prefix@ + rest@,
{
    let mut s = prefix.to_string();
    s.append(rest);
    s
}

impl DomainError {
    /// The human-readable text of the error.
    pub fn message(&self) -> (res: String)
        ensures
            res@ == error_message(*self),
    {
        match self {
            DomainError::InvalidUserName(n) => concat_str("invalid user name: ", n.value()),
            DomainError::InvalidEmail(s) => concat_str("invalid email: ", s.as_str()),
            DomainError::InvalidRequest(s) => concat_str("invalid request: ", s.as_str()),
            DomainError::NotPasswordAuthUser => "not a password auth user".to_string(),
            DomainError::IncorrectPassword => "current password is incorrect".to_string(),
            DomainError::Unauthorized => "unauthorized".to_string(),
            DomainError::UserNotFound => "user not found".to_string(),
            DomainError::Unexpected(s) => concat_str("unexpected error: ", s.as_str()),
            DomainError::EmailAlreadyExists => "email already exists".to_string(),
        }
    }
}

} // verus!
