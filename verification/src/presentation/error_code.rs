//! The codes and messages error responses carry.
use vstd::prelude::*;

verus! {

/// A machine-readable code with its message.
#[derive(Debug, Clone, Copy, PartialEq, Eq)]
pub struct ErrorCode {
    pub code: &'static str,
    pub message: &'static str,
}

pub fn user_not_found() -> (res: ErrorCode)
    ensures
        res.code@ == "USER_NOT_FOUND"@,
        res.message@ == "user not found"@,
{
    ErrorCode { code: "USER_NOT_FOUND", message: "user not found" }
}

pub fn email_already_exists() -> (res: ErrorCode)
    ensures
        res.code@ == "EMAIL_ALREADY_EXISTS"@,
        res.message@ == "email already exists"@,
{
    ErrorCode { code: "EMAIL_ALREADY_EXISTS", message: "email already exists" }
}

pub fn incorrect_password() -> (res: ErrorCode)
    ensures
        res.code@ == "INCORRECT_PASSWORD"@,
        res.message@ == "incorrect password"@,
{
    ErrorCode { code: "INCORRECT_PASSWORD", message: "incorrect password" }
}

pub fn not_password_auth_user() -> (res: ErrorCode)
    ensures
        res.code@ == "NOT_PASSWORD_AUTH_USER"@,
        res.message@ == "not a password auth user"@,
{
    ErrorCode { code: "NOT_PASSWORD_AUTH_USER", message: "not a password auth user" }
}

pub fn invalid_email() -> (res: ErrorCode)
    ensures
        res.code@ == "INVALID_EMAIL"@,
        res.message@ == "invalid email"@,
{
    ErrorCode { code: "INVALID_EMAIL", message: "invalid email" }
}

pub fn invalid_user_name() -> (res: ErrorCode)
    ensures
        res.code@ == "INVALID_USER_NAME"@,
        res.message@ == "INVALID_USER_NAME"@,
{
    ErrorCode { code: "INVALID_USER_NAME", message: "INVALID_USER_NAME" }
}

pub fn unauthorized() -> (res: ErrorCode)
    ensures
        res.code@ == "UNAUTHORIZED"@,
        res.message@ == "unauthorized"@,
{
    ErrorCode { code: "UNAUTHORIZED", message: "unauthorized" }
}

pub fn internal_server_error() -> (res: ErrorCode)
    ensures
        res.code@ == "INTERNAL_SERVER_ERROR"@,
        res.message@ == "internal server error"@,
{
    ErrorCode { code: "INTERNAL_SERVER_ERROR", message: "internal server error" }
}

pub fn invalid_request() -> (res: ErrorCode)
    ensures
        res.code@ == "INVALID_REQUEST"@,
        res.message@ == "invalid request"@,
{
    ErrorCode { code: "INVALID_REQUEST", message: "invalid request" }
}

} // verus!
