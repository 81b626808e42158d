use vstd::prelude::*;
use crate::text::str_eq;

verus! {

/// The subscription plan of a user.
#[derive(Debug, Clone, Copy, PartialEq, Eq, Structural)]
pub enum UserPlan {
    Free,
    Premium,
}

impl UserPlan {
    /// The name a plan is stored under.
    pub open spec fn text(self) -> Seq<char> {
        match self {
            UserPlan::Free => "free"@,
            UserPlan::Premium => "premium"@,
        }
    }

    /// The plan stored under `s`, if any.
    pub open spec fn parse_text(s: Seq<char>) -> Option<Self> {
        if s == "free"@ {
            Some(UserPlan::Free)
        } else if s == "premium"@ {
            Some(UserPlan::Premium)
        } else {
            None
        }
    }

    pub fn as_str(&self) -> (res: &'static str)
        ensures
            res@ == self.text(),
    {
        match self {
            UserPlan::Free => "free",
            UserPlan::Premium => "premium",
        }
    }

    pub fn from_str(s: &str) -> (res: Option<Self>)
        ensures
            res == Self::parse_text(s@),
    {
        if str_eq(s, "free") {
            Some(UserPlan::Free)
        } else if str_eq(s, "premium") {
            Some(UserPlan::Premium)
        } else {
            None
        }
    }

    pub fn is_premium(&self) -> (res: bool)
        ensures
            res == (*self == UserPlan::Premium),
    {
        match self {
            UserPlan::Premium => true,
            UserPlan::Free => false,
        }
    }

    /// Reading back the stored name of a plan gives the plan.
    pub proof fn lemma_parse_text(p: UserPlan)
        ensures
            Self::parse_text(p.text()) == Some(p),
    {
        reveal_strlit("free");
        reveal_strlit("premium");
        assert("free"@.len() == 4);
        assert("premium"@.len() == 7);
    }

    /// A name that reads as a plan is that plan's stored name.
    pub proof fn lemma_text_of_parsed(s: Seq<char>)
        ensures
            Self::parse_text(s) matches Some(p) ==> p.text() == s,
    {
    }
}

} // verus!
