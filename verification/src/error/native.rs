use vstd::prelude::*;

use crate::text::TextValue;

verus! {

/// Error information reported by an underlying system (a library, the OS, a protocol).
#[derive(Debug, Clone, PartialEq, Eq)]
pub struct NativeError {
    pub source: &'static str,
    pub code: Option<String>,
    pub message: Option<String>,
}

/// The text of an optional value.
pub open spec fn optional_text<T: TextValue>(value: Option<T>) -> Option<Seq<char>> {
    match value {
        Some(v) => Some(v.text()),
        None => None,
    }
}

/// The view of an optional string.
pub open spec fn optional_view(value: Option<String>) -> Option<Seq<char>> {
    match value {
        Some(v) => Some(v@),
        None => None,
    }
}

fn render_optional<T: TextValue>(value: Option<T>) -> (r: Option<String>)
    ensures
        optional_view(r) == optional_text(value),
{
    match value {
        Some(v) => Some(v.render()),
        None => None,
    }
}

impl NativeError {
    /// Records the source system and, when known, its own code and message.
    pub fn new<C: TextValue, M: TextValue>(source: &'static str, code: Option<C>, message: Option<M>) -> (e: NativeError)
        ensures
            e.source == source,
            optional_view(e.code) == optional_text(code),
            optional_view(e.message) == optional_text(message),
    {
        NativeError { source, code: render_optional(code), message: render_optional(message) }
    }
}

} // verus!
