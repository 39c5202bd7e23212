use vstd::prelude::*;

use crate::text::TextValue;

verus! {

/// One structured log field: a static key and the text of a value.
#[derive(Debug, Clone, PartialEq, Eq)]
pub struct LogField {
    pub key: &'static str,
    pub value: String,
}

impl LogField {
    /// Pairs a static key with the text of a value.
    pub fn new(key: &'static str, value: impl TextValue) -> (f: LogField)
        ensures
            f.key == key,
            f.value@ == value.text(),
    {
        LogField { key, value: value.render() }
    }
}

} // verus!
