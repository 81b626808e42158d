use vstd::prelude::*;
use crate::domain::error::DomainError;
use crate::text::{
    ascii_lower, contains_char, is_ascii_text, spec_to_lowercase, to_lowercase, trim, trim_str,
};

verus! {

/// The form an address is stored in: white space trimmed from both ends,
/// then lower-cased.
pub open spec fn normalize_email(raw: Seq<char>) -> Seq<char> {
    spec_to_lowercase(trim(raw))
}

/// A normalized e-mail address; it always holds an `@`.
#[derive(Debug, PartialEq, Eq)]
pub struct Email(String);

impl View for Email {
    type V = Seq<char>;

    closed spec fn view(&self) -> Seq<char> {
        self.0@
    }
}

impl Email {
    #[verifier::type_invariant]
    spec fn holds_at_sign(self) -> bool {
        self.0@.contains('@')
    }

}

impl Clone for Email {
    fn clone(&self) -> (res: Self)
        ensures
            res == *self,
    {
        proof {
            use_type_invariant(self);
        }
        Email(self.0.clone())
    }
}

impl Email {
    /// Normalizes `value` (trim, then lower-case) and accepts it when the
    /// result holds an `@`; otherwise the error carries the normalized text.
    /// An ASCII address is lower-cased letter by letter.
    pub fn new(value: String) -> (res: Result<Self, DomainError>)
        ensures
            is_ascii_text(trim(value@)) ==> normalize_email(value@) == trim(value@).map_values(
                |c: char| ascii_lower(c),
            ),
            normalize_email(value@).contains('@') <==> res is Ok,
            res matches Ok(e) ==> e@ == normalize_email(value@),
            res matches Err(e) ==> (e matches DomainError::InvalidEmail(s) && s@ == normalize_email(
                value@,
            )),
    {
        let trimmed = trim_str(value.as_str());
        let normalized = to_lowercase(trimmed);
        if !contains_char(normalized.as_str(), '@') {
            return Err(DomainError::InvalidEmail(normalized));
        }
        Ok(Email(normalized))
    }

    pub fn value(&self) -> (res: &str)
        ensures
            res@ == self@,
            res@.contains('@'),
    {
        proof {
            use_type_invariant(self);
        }
        self.0.as_str()
    }
}

} // verus!
