use vstd::prelude::*;

use crate::text::{is_blank, is_blank_str, TextValue};
use crate::types::error::EmptyStringError;

verus! {

/// A string that is neither empty nor made only of whitespace. The text is
/// kept exactly as given, surrounding whitespace included.
#[derive(Debug, PartialEq, Eq, PartialOrd, Ord, Hash)]
pub struct NonEmptyString(String);

impl View for NonEmptyString {
    type V = Seq<char>;

    closed spec fn view(&self) -> Seq<char> {
        self.0@
    }
}

impl NonEmptyString {
    #[verifier::type_invariant]
    closed spec fn not_blank(self) -> bool {
        !is_blank(self.0@)
    }

    /// Accepts any text that is not blank and keeps it unchanged.
    pub fn new(value: impl TextValue) -> (r: Result<NonEmptyString, EmptyStringError>)
        ensures
            is_blank(value.text()) <==> r is Err,
            r matches Err(e) ==> e == EmptyStringError::EmptyOrBlank,
            r matches Ok(s) ==> s@ == value.text(),
    {
        let value = value.render();
        if is_blank_str(value.as_str()) {
            return Err(EmptyStringError::EmptyOrBlank);
        }
        Ok(NonEmptyString(value))
    }

    /// The text.
    pub fn as_str(&self) -> (r: &str)
        ensures
            r@ == self@,
            !is_blank(r@),
    {
        proof {
            use_type_invariant(self);
        }
        self.0.as_str()
    }

    /// The text as an owned `String`.
    pub fn into_string(self) -> (r: String)
        ensures
            r@ == self@,
    {
        self.0
    }

    /// Renders the text as `Display` does: unchanged.
    pub fn to_string(&self) -> (r: String)
        ensures
            r@ == self@,
    {
        self.0.clone()
    }
}

impl Clone for NonEmptyString {
    fn clone(&self) -> (r: NonEmptyString)
        ensures
            r == *self,
    {
        proof {
            use_type_invariant(self);
        }
        NonEmptyString(self.0.clone())
    }
}

impl TryFrom<String> for NonEmptyString {
    type Error = EmptyStringError;

    fn try_from(value: String) -> (r: Result<NonEmptyString, EmptyStringError>)
        ensures
            is_blank(value@) <==> r is Err,
            r matches Err(e) ==> e == EmptyStringError::EmptyOrBlank,
            r matches Ok(s) ==> s@ == value@,
    {
        if is_blank_str(value.as_str()) {
            Err(EmptyStringError::EmptyOrBlank)
        } else {
            Ok(NonEmptyString(value))
        }
    }
}

impl vstd::std_specs::convert::TryFromSpecImpl<String> for NonEmptyString {
    open spec fn obeys_try_from_spec() -> bool {
        true
    }

    closed spec fn try_from_spec(v: String) -> Result<NonEmptyString, EmptyStringError> {
        if is_blank(v@) {
            Err(EmptyStringError::EmptyOrBlank)
        } else {
            Ok(NonEmptyString(v))
        }
    }
}

impl<'a> TryFrom<&'a str> for NonEmptyString {
    type Error = EmptyStringError;

    fn try_from(value: &'a str) -> (r: Result<NonEmptyString, EmptyStringError>)
        ensures
            is_blank(value@) <==> r is Err,
            r matches Err(e) ==> e == EmptyStringError::EmptyOrBlank,
            r matches Ok(s) ==> s@ == value@,
    {
        NonEmptyString::new(value)
    }
}

/// The `String` that `TryFrom<&str>` allocates is fresh, so the argument fixes
/// only the view of the result, not the result itself: this conversion makes
/// no claim through `try_from_spec`, and the impl's own `ensures` states the
/// view of the result instead.
impl<'a> vstd::std_specs::convert::TryFromSpecImpl<&'a str> for NonEmptyString {
    open spec fn obeys_try_from_spec() -> bool {
        false
    }

    closed spec fn try_from_spec(v: &'a str) -> Result<NonEmptyString, EmptyStringError> {
        vstd::pervasive::arbitrary()
    }
}

impl AsRef<str> for NonEmptyString {
    fn as_ref(&self) -> (r: &str)
        ensures
            r@ == self@,
    {
        self.as_str()
    }
}

impl From<NonEmptyString> for String {
    fn from(value: NonEmptyString) -> (r: String)
        ensures
            r@ == value@,
    {
        value.0
    }
}

impl vstd::std_specs::convert::FromSpecImpl<NonEmptyString> for String {
    open spec fn obeys_from_spec() -> bool {
        true
    }

    closed spec fn from_spec(v: NonEmptyString) -> String {
        v.0
    }
}

} // verus!
