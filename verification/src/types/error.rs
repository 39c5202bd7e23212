use vstd::prelude::*;

use crate::text::owned;

verus! {

/// An identifier was built from the raw value zero.
#[derive(Debug, Clone, Copy, PartialEq, Eq, Structural)]
pub enum InvalidIdError {
    Zero,
}

/// A text was empty or contained only whitespace.
#[derive(Debug, Clone, Copy, PartialEq, Eq, Structural)]
pub enum EmptyStringError {
    EmptyOrBlank,
}

impl InvalidIdError {
    /// The display text of the error.
    pub open spec fn spec_message(self) -> Seq<char> {
        "id must not be zero"@
    }

    /// Renders the error as its display text.
    pub fn to_string(&self) -> (s: String)
        ensures
            s@ == self.spec_message(),
    {
        owned("id must not be zero")
    }
}

impl EmptyStringError {
    /// The display text of the error.
    pub open spec fn spec_message(self) -> Seq<char> {
        "string must not be empty or blank"@
    }

    /// Renders the error as its display text.
    pub fn to_string(&self) -> (s: String)
        ensures
            s@ == self.spec_message(),
    {
        owned("string must not be empty or blank")
    }
}

} // verus!
