use vstd::prelude::*;

use crate::text::owned;

verus! {

/// High-level classification of an error.
#[derive(Debug, Clone, Copy, PartialEq, Eq, Hash, Structural)]
pub enum ErrorKind {
    Upstream,
    InvalidInput,
    InvalidState,
    Timeout,
    Cancelled,
    NotFound,
    Conflict,
    PermissionDenied,
    Unavailable,
    Parse,
    Encode,
    Decode,
    Verify,
    Internal,
}

impl ErrorKind {
    /// The stable snake-case name of the kind.
    pub open spec fn spec_as_str(self) -> Seq<char> {
        match self {
            ErrorKind::Upstream => "upstream"@,
            ErrorKind::InvalidInput => "invalid_input"@,
            ErrorKind::InvalidState => "invalid_state"@,
            ErrorKind::Timeout => "timeout"@,
            ErrorKind::Cancelled => "cancelled"@,
            ErrorKind::NotFound => "not_found"@,
            ErrorKind::Conflict => "conflict"@,
            ErrorKind::PermissionDenied => "permission_denied"@,
            ErrorKind::Unavailable => "unavailable"@,
            ErrorKind::Parse => "parse"@,
            ErrorKind::Encode => "encode"@,
            ErrorKind::Decode => "decode"@,
            ErrorKind::Verify => "verify"@,
            ErrorKind::Internal => "internal"@,
        }
    }

    /// The stable snake-case name of the kind.
    pub fn as_str(self) -> (s: &'static str)
        ensures
            s@ == self.spec_as_str(),
    {
        match self {
            ErrorKind::Upstream => "upstream",
            ErrorKind::InvalidInput => "invalid_input",
            ErrorKind::InvalidState => "invalid_state",
            ErrorKind::Timeout => "timeout",
            ErrorKind::Cancelled => "cancelled",
            ErrorKind::NotFound => "not_found",
            ErrorKind::Conflict => "conflict",
            ErrorKind::PermissionDenied => "permission_denied",
            ErrorKind::Unavailable => "unavailable",
            ErrorKind::Parse => "parse",
            ErrorKind::Encode => "encode",
            ErrorKind::Decode => "decode",
            ErrorKind::Verify => "verify",
            ErrorKind::Internal => "internal",
        }
    }

    /// Renders the kind as `Display` does: its name.
    pub fn to_string(&self) -> (s: String)
        ensures
            s@ == self.spec_as_str(),
    {
        owned(self.as_str())
    }
}

/// Each kind is named by its variant written in snake case.
pub proof fn law_kind_names_are_snake_case_variants()
    ensures
        ErrorKind::Upstream.spec_as_str() == "upstream"@,
        ErrorKind::InvalidInput.spec_as_str() == "invalid_input"@,
        ErrorKind::InvalidState.spec_as_str() == "invalid_state"@,
        ErrorKind::Timeout.spec_as_str() == "timeout"@,
        ErrorKind::Cancelled.spec_as_str() == "cancelled"@,
        ErrorKind::NotFound.spec_as_str() == "not_found"@,
        ErrorKind::Conflict.spec_as_str() == "conflict"@,
        ErrorKind::PermissionDenied.spec_as_str() == "permission_denied"@,
        ErrorKind::Unavailable.spec_as_str() == "unavailable"@,
        ErrorKind::Parse.spec_as_str() == "parse"@,
        ErrorKind::Encode.spec_as_str() == "encode"@,
        ErrorKind::Decode.spec_as_str() == "decode"@,
        ErrorKind::Verify.spec_as_str() == "verify"@,
        ErrorKind::Internal.spec_as_str() == "internal"@,
{
}

/// Different kinds have different names, so a name identifies its kind.
pub proof fn law_kind_names_distinct(a: ErrorKind, b: ErrorKind)
    requires
        a != b,
    ensures
        a.spec_as_str() != b.spec_as_str(),
{
    reveal_strlit("upstream");
    reveal_strlit("invalid_input");
    reveal_strlit("invalid_state");
    reveal_strlit("timeout");
    reveal_strlit("cancelled");
    reveal_strlit("not_found");
    reveal_strlit("conflict");
    reveal_strlit("permission_denied");
    reveal_strlit("unavailable");
    reveal_strlit("parse");
    reveal_strlit("encode");
    reveal_strlit("decode");
    reveal_strlit("verify");
    reveal_strlit("internal");
    let sa = a.spec_as_str();
    let sb = b.spec_as_str();
    if sa == sb {
        assert(sa.len() == sb.len());
        assert(sa[0] == sb[0]);
        assert(sa[1] == sb[1]);
        assert(sa[2] == sb[2]);
        assert(sa[3] == sb[3]);
        assert(sa[4] == sb[4]);
        assert(sa[8] == sb[8]);
        assert(false);
    }
}

} // verus!
