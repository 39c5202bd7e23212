use vstd::prelude::*;

use crate::text::{decimal, empty_string, push_decimal};
use crate::types::error::InvalidIdError;

verus! {

/// Rejects zero and passes any other raw value through.
pub fn ensure_non_zero(raw: u64) -> (r: Result<u64, InvalidIdError>)
    ensures
        raw == 0 <==> r is Err,
        r matches Err(e) ==> e == InvalidIdError::Zero,
        r matches Ok(v) ==> v == raw,
{
    if raw == 0 {
        Err(InvalidIdError::Zero)
    } else {
        Ok(raw)
    }
}

/// Opaque handle identifier; never zero.
#[derive(Clone, Copy, Debug, PartialEq, Eq, Ord, Hash)]
pub struct HandleId(u64);

impl View for HandleId {
    type V = u64;

    closed spec fn view(&self) -> u64 {
        self.0
    }
}

impl HandleId {
    #[verifier::type_invariant]
    closed spec fn non_zero(self) -> bool {
        self.0 != 0
    }

    /// Wraps a value known to be non-zero.
    pub fn new(raw: u64) -> (id: HandleId)
        requires
            raw != 0,
        ensures
            id@ == raw,
    {
        HandleId(raw)
    }

    /// The raw value, never zero.
    pub fn get(self) -> (r: u64)
        ensures
            r == self@,
            r != 0,
    {
        proof {
            use_type_invariant(&self);
        }
        self.0
    }

    /// Builds the identifier from a raw value, rejecting zero.
    pub fn try_from_u64(value: u64) -> (r: Result<HandleId, InvalidIdError>)
        ensures
            value == 0 <==> r is Err,
            r matches Err(e) ==> e == InvalidIdError::Zero,
            r matches Ok(id) ==> id@ == value,
    {
        match ensure_non_zero(value) {
            Ok(v) => Ok(HandleId::new(v)),
            Err(e) => Err(e),
        }
    }

    /// Renders the identifier as its plain decimal value.
    pub fn to_string(&self) -> (s: String)
        ensures
            s@ == decimal(self@ as nat),
    {
        let mut s = empty_string();
        push_decimal(&mut s, self.get());
        assert(s@ =~= decimal(self@ as nat));
        s
    }
}

impl TryFrom<u64> for HandleId {
    type Error = InvalidIdError;

    fn try_from(value: u64) -> (r: Result<HandleId, InvalidIdError>)
        ensures
            value == 0 <==> r is Err,
            r matches Err(e) ==> e == InvalidIdError::Zero,
            r matches Ok(id) ==> id@ == value,
    {
        HandleId::try_from_u64(value)
    }
}

impl vstd::std_specs::convert::TryFromSpecImpl<u64> for HandleId {
    open spec fn obeys_try_from_spec() -> bool {
        true
    }

    closed spec fn try_from_spec(v: u64) -> Result<HandleId, InvalidIdError> {
        if v == 0 {
            Err(InvalidIdError::Zero)
        } else {
            Ok(HandleId(v))
        }
    }
}

/// Request identifier; never zero.
#[derive(Clone, Copy, Debug, PartialEq, Eq, Ord, Hash)]
pub struct RequestId(u64);

impl View for RequestId {
    type V = u64;

    closed spec fn view(&self) -> u64 {
        self.0
    }
}

impl RequestId {
    #[verifier::type_invariant]
    closed spec fn non_zero(self) -> bool {
        self.0 != 0
    }

    /// Wraps a value known to be non-zero.
    pub fn new(raw: u64) -> (id: RequestId)
        requires
            raw != 0,
        ensures
            id@ == raw,
    {
        RequestId(raw)
    }

    /// The raw value, never zero.
    pub fn get(self) -> (r: u64)
        ensures
            r == self@,
            r != 0,
    {
        proof {
            use_type_invariant(&self);
        }
        self.0
    }

    /// Builds the identifier from a raw value, rejecting zero.
    pub fn try_from_u64(value: u64) -> (r: Result<RequestId, InvalidIdError>)
        ensures
            value == 0 <==> r is Err,
            r matches Err(e) ==> e == InvalidIdError::Zero,
            r matches Ok(id) ==> id@ == value,
    {
        match ensure_non_zero(value) {
            Ok(v) => Ok(RequestId::new(v)),
            Err(e) => Err(e),
        }
    }

    /// Renders the identifier as its plain decimal value.
    pub fn to_string(&self) -> (s: String)
        ensures
            s@ == decimal(self@ as nat),
    {
        let mut s = empty_string();
        push_decimal(&mut s, self.get());
        assert(s@ =~= decimal(self@ as nat));
        s
    }
}

impl TryFrom<u64> for RequestId {
    type Error = InvalidIdError;

    fn try_from(value: u64) -> (r: Result<RequestId, InvalidIdError>)
        ensures
            value == 0 <==> r is Err,
            r matches Err(e) ==> e == InvalidIdError::Zero,
            r matches Ok(id) ==> id@ == value,
    {
        RequestId::try_from_u64(value)
    }
}

impl vstd::std_specs::convert::TryFromSpecImpl<u64> for RequestId {
    open spec fn obeys_try_from_spec() -> bool {
        true
    }

    closed spec fn try_from_spec(v: u64) -> Result<RequestId, InvalidIdError> {
        if v == 0 {
            Err(InvalidIdError::Zero)
        } else {
            Ok(RequestId(v))
        }
    }
}

/// Correlation identifier linking related requests; never zero.
#[derive(Clone, Copy, Debug, PartialEq, Eq, Ord, Hash)]
pub struct CorrelationId(u64);

impl View for CorrelationId {
    type V = u64;

    closed spec fn view(&self) -> u64 {
        self.0
    }
}

impl CorrelationId {
    #[verifier::type_invariant]
    closed spec fn non_zero(self) -> bool {
        self.0 != 0
    }

    /// Wraps a value known to be non-zero.
    pub fn new(raw: u64) -> (id: CorrelationId)
        requires
            raw != 0,
        ensures
            id@ == raw,
    {
        CorrelationId(raw)
    }

    /// The raw value, never zero.
    pub fn get(self) -> (r: u64)
        ensures
            r == self@,
            r != 0,
    {
        proof {
            use_type_invariant(&self);
        }
        self.0
    }

    /// Builds the identifier from a raw value, rejecting zero.
    pub fn try_from_u64(value: u64) -> (r: Result<CorrelationId, InvalidIdError>)
        ensures
            value == 0 <==> r is Err,
            r matches Err(e) ==> e == InvalidIdError::Zero,
            r matches Ok(id) ==> id@ == value,
    {
        match ensure_non_zero(value) {
            Ok(v) => Ok(CorrelationId::new(v)),
            Err(e) => Err(e),
        }
    }

    /// Renders the identifier as its plain decimal value.
    pub fn to_string(&self) -> (s: String)
        ensures
            s@ == decimal(self@ as nat),
    {
        let mut s = empty_string();
        push_decimal(&mut s, self.get());
        assert(s@ =~= decimal(self@ as nat));
        s
    }
}

impl TryFrom<u64> for CorrelationId {
    type Error = InvalidIdError;

    fn try_from(value: u64) -> (r: Result<CorrelationId, InvalidIdError>)
        ensures
            value == 0 <==> r is Err,
            r matches Err(e) ==> e == InvalidIdError::Zero,
            r matches Ok(id) ==> id@ == value,
    {
        CorrelationId::try_from_u64(value)
    }
}

impl vstd::std_specs::convert::TryFromSpecImpl<u64> for CorrelationId {
    open spec fn obeys_try_from_spec() -> bool {
        true
    }

    closed spec fn try_from_spec(v: u64) -> Result<CorrelationId, InvalidIdError> {
        if v == 0 {
            Err(InvalidIdError::Zero)
        } else {
            Ok(CorrelationId(v))
        }
    }
}

} // verus!
