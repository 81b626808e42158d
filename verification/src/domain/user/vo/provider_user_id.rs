use vstd::prelude::*;

verus! {

/// The user's identifier at an OAuth provider.
#[derive(Debug, PartialEq, Eq)]
pub struct ProviderUserId(String);

impl View for ProviderUserId {
    type V = Seq<char>;

    closed spec fn view(&self) -> Seq<char> {
        self.0@
    }
}

impl Clone for ProviderUserId {
    fn clone(&self) -> (res: Self)
        ensures
            res == *self,
    {
        ProviderUserId(self.0.clone())
    }
}

impl ProviderUserId {
    pub fn new(id: String) -> (res: Self)
        ensures
            res@ == id@,
    {
        ProviderUserId(id)
    }

    pub fn value(&self) -> (res: &str)
        ensures
            res@ == self@,
    {
        self.0.as_str()
    }
}

} // verus!
