use vstd::prelude::*;

verus! {

/// Identifier of the mobile device a user signed in from.
#[derive(Debug, PartialEq, Eq)]
pub struct DeviceId(String);

impl View for DeviceId {
    type V = Seq<char>;

    closed spec fn view(&self) -> Seq<char> {
        self.0@
    }
}

impl Clone for DeviceId {
    fn clone(&self) -> (res: Self)
        ensures
            res == *self,
    {
        DeviceId(self.0.clone())
    }
}

impl DeviceId {
    pub fn new(id: String) -> (res: Self)
        ensures
            res@ == id@,
    {
        DeviceId(id)
    }

    pub fn value(&self) -> (res: &str)
        ensures
            res@ == self@,
    {
        self.0.as_str()
    }
}

} // verus!
