use vstd::prelude::*;
use crate::text::str_eq;

verus! {

/// An OAuth identity provider.
#[derive(Debug, Clone, Copy, PartialEq, Eq, Structural)]
pub enum OAuthProvider {
    Google,
    Apple,
}

impl OAuthProvider {
    /// The name a provider is stored under.
    pub open spec fn text(self) -> Seq<char> {
        match self {
            OAuthProvider::Google => "google"@,
            OAuthProvider::Apple => "apple"@,
        }
    }

    /// The provider stored under `s`, if any.
    pub open spec fn parse_text(s: Seq<char>) -> Option<Self> {
        if s == "google"@ {
            Some(OAuthProvider::Google)
        } else if s == "apple"@ {
            Some(OAuthProvider::Apple)
        } else {
            None
        }
    }

    pub fn as_str(&self) -> (res: &'static str)
        ensures
            res@ == self.text(),
    {
        match self {
            OAuthProvider::Google => "google",
            OAuthProvider::Apple => "apple",
        }
    }

    pub fn from_str(s: &str) -> (res: Option<Self>)
        ensures
            res == Self::parse_text(s@),
    {
        if str_eq(s, "google") {
            Some(OAuthProvider::Google)
        } else if str_eq(s, "apple") {
            Some(OAuthProvider::Apple)
        } else {
            None
        }
    }

    /// Reading back the stored name of a provider gives the provider.
    pub proof fn lemma_parse_text(p: OAuthProvider)
        ensures
            Self::parse_text(p.text()) == Some(p),
    {
        reveal_strlit("google");
        reveal_strlit("apple");
        assert("google"@.len() == 6);
        assert("apple"@.len() == 5);
    }

    /// A name that reads as a provider is that provider's stored name.
    pub proof fn lemma_text_of_parsed(s: Seq<char>)
        ensures
            Self::parse_text(s) matches Some(p) ==> p.text() == s,
    {
    }
}

} // verus!
