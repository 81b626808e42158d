use vstd::prelude::*;
use crate::text::str_eq;

verus! {

/// Where a subscription was bought.
#[derive(Debug, Clone, Copy, PartialEq, Eq, Structural)]
pub enum SubscriptionProvider {
    GooglePlay,
    AppStore,
    Stripe,
    Paypay,
}

impl SubscriptionProvider {
    /// The name a provider is written as. Stripe is written "stripte".
    pub open spec fn text(self) -> Seq<char> {
        match self {
            SubscriptionProvider::GooglePlay => "google_play"@,
            SubscriptionProvider::AppStore => "app_store"@,
            SubscriptionProvider::Stripe => "stripte"@,
            SubscriptionProvider::Paypay => "paypay"@,
        }
    }

    /// The provider a name reads as, if any. Stripe is read from "stripe".
    pub open spec fn parse_text(s: Seq<char>) -> Option<Self> {
        if s == "google_play"@ {
            Some(SubscriptionProvider::GooglePlay)
        } else if s == "app_store"@ {
            Some(SubscriptionProvider::AppStore)
        } else if s == "stripe"@ {
            Some(SubscriptionProvider::Stripe)
        } else if s == "paypay"@ {
            Some(SubscriptionProvider::Paypay)
        } else {
            None
        }
    }

    pub fn as_str(&self) -> (res: &'static str)
        ensures
            res@ == self.text(),
    {
        match self {
            SubscriptionProvider::GooglePlay => "google_play",
            SubscriptionProvider::AppStore => "app_store",
            SubscriptionProvider::Stripe => "stripte",
            SubscriptionProvider::Paypay => "paypay",
        }
    }

    pub fn from_str(s: &str) -> (res: Option<Self>)
        ensures
            res == Self::parse_text(s@),
    {
        if str_eq(s, "google_play") {
            Some(SubscriptionProvider::GooglePlay)
        } else if str_eq(s, "app_store") {
            Some(SubscriptionProvider::AppStore)
        } else if str_eq(s, "stripe") {
            Some(SubscriptionProvider::Stripe)
        } else if str_eq(s, "paypay") {
            Some(SubscriptionProvider::Paypay)
        } else {
            None
        }
    }

    /// Reading back the written name of a provider gives the provider, for
    /// every provider but Stripe.
    pub proof fn lemma_parse_text(p: SubscriptionProvider)
        requires
            p != SubscriptionProvider::Stripe,
        ensures
            Self::parse_text(p.text()) == Some(p),
    {
        reveal_strlit("google_play");
        reveal_strlit("app_store");
        reveal_strlit("stripe");
        reveal_strlit("paypay");
        assert("google_play"@.len() == 11);
        assert("app_store"@.len() == 9);
        assert("stripe"@.len() == 6);
        assert("paypay"@.len() == 6);
        assert("stripe"@[0] != "paypay"@[0]);
    }

    /// A name that reads as a provider is that provider's written name,
    /// except "stripe", which Stripe is not written as.
    pub proof fn lemma_text_of_parsed(s: Seq<char>)
        requires
            s != "stripe"@,
        ensures
            Self::parse_text(s) matches Some(p) ==> p.text() == s,
    {
    }
}

/// The state of a subscription.
#[derive(Debug, Clone, Copy, PartialEq, Eq, Structural)]
pub enum SubscriptionStatus {
    Active,
    Canceled,
    PastDue,
    Expired,
}

impl SubscriptionStatus {
    /// The name a status is stored under.
    pub open spec fn text(self) -> Seq<char> {
        match self {
            SubscriptionStatus::Active => "active"@,
            SubscriptionStatus::Canceled => "canceled"@,
            SubscriptionStatus::PastDue => "past_due"@,
            SubscriptionStatus::Expired => "expired"@,
        }
    }

    /// The status stored under `s`, if any.
    pub open spec fn parse_text(s: Seq<char>) -> Option<Self> {
        if s == "active"@ {
            Some(SubscriptionStatus::Active)
        } else if s == "canceled"@ {
            Some(SubscriptionStatus::Canceled)
        } else if s == "past_due"@ {
            Some(SubscriptionStatus::PastDue)
        } else if s == "expired"@ {
            Some(SubscriptionStatus::Expired)
        } else {
            None
        }
    }

    pub fn as_str(&self) -> (res: &'static str)
        ensures
            res@ == self.text(),
    {
        match self {
            SubscriptionStatus::Active => "active",
            SubscriptionStatus::Canceled => "canceled",
            SubscriptionStatus::PastDue => "past_due",
            SubscriptionStatus::Expired => "expired",
        }
    }

    pub fn from_str(s: &str) -> (res: Option<Self>)
        ensures
            res == Self::parse_text(s@),
    {
        if str_eq(s, "active") {
            Some(SubscriptionStatus::Active)
        } else if str_eq(s, "canceled") {
            Some(SubscriptionStatus::Canceled)
        } else if str_eq(s, "past_due") {
            Some(SubscriptionStatus::PastDue)
        } else if str_eq(s, "expired") {
            Some(SubscriptionStatus::Expired)
        } else {
            None
        }
    }

    /// Reading back the stored name of a status gives the status.
    pub proof fn lemma_parse_text(st: SubscriptionStatus)
        ensures
            Self::parse_text(st.text()) == Some(st),
    {
        reveal_strlit("active");
        reveal_strlit("canceled");
        reveal_strlit("past_due");
        reveal_strlit("expired");
        assert("active"@.len() == 6);
        assert("canceled"@.len() == 8);
        assert("past_due"@.len() == 8);
        assert("expired"@.len() == 7);
        assert("canceled"@[0] != "past_due"@[0]);
    }

    /// A name that reads as a status is that status's stored name.
    pub proof fn lemma_text_of_parsed(s: Seq<char>)
        ensures
            Self::parse_text(s) matches Some(st) ==> st.text() == s,
    {
    }
}

/// Identifier of a stored subscription.
#[derive(Debug, Clone, Copy, PartialEq, Eq, Structural)]
pub struct SubscriptionId(i64);

impl View for SubscriptionId {
    type V = i64;

    closed spec fn view(&self) -> i64 {
        self.0
    }
}

impl SubscriptionId {
    pub fn new(id: i64) -> (res: Self)
        ensures
            res@ == id,
    {
        SubscriptionId(id)
    }

    pub fn value(&self) -> (res: i64)
        ensures
            res == self@,
    {
        self.0
    }
}

/// The subscription's identifier at its provider.
#[derive(Debug, PartialEq, Eq)]
pub struct ProviderSubscriptionId(String);

impl View for ProviderSubscriptionId {
    type V = Seq<char>;

    closed spec fn view(&self) -> Seq<char> {
        self.0@
    }
}

impl Clone for ProviderSubscriptionId {
    fn clone(&self) -> (res: Self)
        ensures
            res == *self,
    {
        ProviderSubscriptionId(self.0.clone())
    }
}

impl ProviderSubscriptionId {
    pub fn new(id: String) -> (res: Self)
        ensures
            res@ == id@,
    {
        ProviderSubscriptionId(id)
    }

    pub fn value(&self) -> (res: &str)
        ensures
            res@ == self@,
    {
        self.0.as_str()
    }
}

} // verus!
