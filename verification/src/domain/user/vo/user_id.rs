use vstd::prelude::*;

verus! {

/// Identifier of a user.
#[derive(Debug, Clone, Copy, PartialEq, Eq, Hash, Structural)]
pub struct UserId(i64);

impl View for UserId {
    type V = i64;

    closed spec fn view(&self) -> i64 {
        self.0
    }
}

impl UserId {
    pub fn new(id: i64) -> (res: Self)
        ensures
            res@ == id,
    {
        UserId(id)
    }

    pub fn value(&self) -> (res: i64)
        ensures
            res == self@,
    {
        self.0
    }

}

} // verus!
