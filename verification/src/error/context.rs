use vstd::prelude::*;

use crate::text::TextValue;

verus! {

/// One structured key/value pair attached to an error.
#[derive(Debug, Clone, PartialEq, Eq)]
pub struct ErrorContext {
    pub key: &'static str,
    pub value: String,
}

impl ErrorContext {
    /// Pairs a static key with the text of a value.
    pub fn new(key: &'static str, value: impl TextValue) -> (c: ErrorContext)
        ensures
            c.key == key,
            c.value@ == value.text(),
    {
        ErrorContext { key, value: value.render() }
    }
}

} // verus!
