//! Identifiers are ordered by their raw values.
use vstd::prelude::*;

use std::cmp::Ordering;

use vstd::std_specs::cmp::PartialOrdSpec;

use crate::types::id::{CorrelationId, HandleId, RequestId};

verus! {

/// The order of two raw values.
pub open spec fn raw_order(x: u64, y: u64) -> Ordering {
    if x < y {
        Ordering::Less
    } else if x == y {
        Ordering::Equal
    } else {
        Ordering::Greater
    }
}

fn compare_raw(x: u64, y: u64) -> (o: Ordering)
    ensures
        o == raw_order(x, y),
{
    if x < y {
        Ordering::Less
    } else if x == y {
        Ordering::Equal
    } else {
        Ordering::Greater
    }
}

impl PartialOrd for HandleId {
    fn partial_cmp(&self, other: &HandleId) -> (r: Option<Ordering>) {
        Some(compare_raw(self.get(), other.get()))
    }
}

impl vstd::std_specs::cmp::PartialOrdSpecImpl for HandleId {
    open spec fn obeys_partial_cmp_spec() -> bool {
        true
    }

    open spec fn partial_cmp_spec(&self, other: &HandleId) -> Option<Ordering> {
        Some(raw_order(self@, other@))
    }
}

impl PartialOrd for RequestId {
    fn partial_cmp(&self, other: &RequestId) -> (r: Option<Ordering>) {
        Some(compare_raw(self.get(), other.get()))
    }
}

impl vstd::std_specs::cmp::PartialOrdSpecImpl for RequestId {
    open spec fn obeys_partial_cmp_spec() -> bool {
        true
    }

    open spec fn partial_cmp_spec(&self, other: &RequestId) -> Option<Ordering> {
        Some(raw_order(self@, other@))
    }
}

impl PartialOrd for CorrelationId {
    fn partial_cmp(&self, other: &CorrelationId) -> (r: Option<Ordering>) {
        Some(compare_raw(self.get(), other.get()))
    }
}

impl vstd::std_specs::cmp::PartialOrdSpecImpl for CorrelationId {
    open spec fn obeys_partial_cmp_spec() -> bool {
        true
    }

    open spec fn partial_cmp_spec(&self, other: &CorrelationId) -> Option<Ordering> {
        Some(raw_order(self@, other@))
    }
}

/// Handle ids compare as their raw values: `a < b` exactly when
/// `a.get() < b.get()`, and they compare equal exactly when the values are.
pub proof fn law_handle_ids_order_by_value(a: HandleId, b: HandleId)
    ensures
        a.partial_cmp_spec(&b) == Some(Ordering::Less) <==> a@ < b@,
        a.partial_cmp_spec(&b) == Some(Ordering::Equal) <==> a@ == b@,
        a.partial_cmp_spec(&b) == Some(Ordering::Greater) <==> a@ > b@,
{
}

/// Request ids compare as their raw values.
pub proof fn law_request_ids_order_by_value(a: RequestId, b: RequestId)
    ensures
        a.partial_cmp_spec(&b) == Some(Ordering::Less) <==> a@ < b@,
        a.partial_cmp_spec(&b) == Some(Ordering::Equal) <==> a@ == b@,
        a.partial_cmp_spec(&b) == Some(Ordering::Greater) <==> a@ > b@,
{
}

/// Correlation ids compare as their raw values.
pub proof fn law_correlation_ids_order_by_value(a: CorrelationId, b: CorrelationId)
    ensures
        a.partial_cmp_spec(&b) == Some(Ordering::Less) <==> a@ < b@,
        a.partial_cmp_spec(&b) == Some(Ordering::Equal) <==> a@ == b@,
        a.partial_cmp_spec(&b) == Some(Ordering::Greater) <==> a@ > b@,
{
}

} // verus!
