use vstd::prelude::*;
use crate::domain::error::DomainError;
use crate::text::chars_of;

verus! {

/// Longest user name accepted, in characters.
pub const MAX_USER_NAME_CHARS: usize = 30usize;

/// A user's display name.
#[derive(Debug, PartialEq, Eq)]
pub struct UserName(String);

impl View for UserName {
    type V = Seq<char>;

    closed spec fn view(&self) -> Seq<char> {
        self.0@
    }
}

impl Clone for UserName {
    fn clone(&self) -> (res: Self)
        ensures
            res == *self,
    {
        UserName(self.0.clone())
    }
}

/// A name is accepted when it is not empty and at most 30 characters long.
pub open spec fn is_valid_user_name(name: Seq<char>) -> bool {
    name.len() > 0 && name.len() <= MAX_USER_NAME_CHARS
}

impl UserName {
    /// Validates `name`: it is kept as it is when valid, and the rejected
    /// name is carried in the error otherwise.
    pub fn new(name: String) -> (res: Result<Self, DomainError>)
        ensures
            is_valid_user_name(name@) <==> res is Ok,
            res matches Ok(n) ==> n@ == name@,
            res matches Err(e) ==> (e matches DomainError::InvalidUserName(n) && n@ == name@),
    {
        let chars = chars_of(name.as_str());
        if chars.len() == 0 || chars.len() > MAX_USER_NAME_CHARS {
            return Err(DomainError::InvalidUserName(UserName(name)));
        }
        Ok(UserName(name))
    }

    pub fn value(&self) -> (res: &str)
        ensures
            res@ == self@,
    {
        self.0.as_str()
    }
}

} // verus!
