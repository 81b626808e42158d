use vstd::prelude::*;

verus! {

/// Identifier of a stored refresh token.
#[derive(Debug, Clone, Copy, PartialEq, Eq, Structural)]
pub struct RefreshTokenId(i64);

impl View for RefreshTokenId {
    type V = i64;

    closed spec fn view(&self) -> i64 {
        self.0
    }
}

impl RefreshTokenId {
    pub fn new(id: i64) -> (res: Self)
        ensures
            res@ == id,
    {
        RefreshTokenId(id)
    }

    pub fn value(&self) -> (res: i64)
        ensures
            res == self@,
    {
        self.0
    }
}

/// The hash under which a refresh token is stored.
#[derive(Debug, PartialEq, Eq)]
pub struct TokenHash(String);

impl View for TokenHash {
    type V = Seq<char>;

    closed spec fn view(&self) -> Seq<char> {
        self.0@
    }
}

impl Clone for TokenHash {
    fn clone(&self) -> (res: Self)
        ensures
            res == *self,
    {
        TokenHash(self.0.clone())
    }
}

impl TokenHash {
    pub fn from_hash(hash: String) -> (res: Self)
        ensures
            res@ == hash@,
    {
        TokenHash(hash)
    }

    pub fn value(&self) -> (res: &str)
        ensures
            res@ == self@,
    {
        self.0.as_str()
    }
}

} // verus!
