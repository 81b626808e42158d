use vstd::prelude::*;

verus! {

/// A password hash in PHC string format.
#[derive(Debug)]
pub struct PasswordHash(String);

impl View for PasswordHash {
    type V = Seq<char>;

    closed spec fn view(&self) -> Seq<char> {
        self.0@
    }
}

impl Clone for PasswordHash {
    fn clone(&self) -> (res: Self)
        ensures
            res == *self,
    {
        PasswordHash(self.0.clone())
    }
}

impl PasswordHash {
    pub fn new(hash: String) -> (res: Self)
        ensures
            res@ == hash@,
    {
        PasswordHash(hash)
    }

    pub fn value(&self) -> (res: &str)
        ensures
            res@ == self@,
    {
        self.0.as_str()
    }
}

} // verus!
