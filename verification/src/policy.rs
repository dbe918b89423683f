//! Event-to-policy matching: an event is reduced to its kind, and the kind
//! is tested for membership in the configured allow-list.
use vstd::prelude::*;
use crate::events::{kind_of, kind_of_event, Event, EventKind};

verus! {

/// An event matches the policy exactly when its kind is allowed.
pub open spec fn spec_matches(e: Event, allowed: Seq<EventKind>) -> bool {
    allowed.contains(kind_of(e))
}

/// Does the event's kind stand in the allow-list? Pure and total: only the
/// kind is read, never the payload.
pub fn matches(event: &Event, allowed: &Vec<EventKind>) -> (r: bool)
    ensures
        r == spec_matches(*event, allowed@),
{
    let k = kind_of_event(event);
    let mut i: usize = 0;
    while i < allowed.len()
        invariant
            i <= allowed@.len(),
            k == kind_of(*event),
            forall|j: int| 0 <= j < i ==> allowed@[j] != k,
        decreases allowed@.len() - i,
    {
        if allowed[i] == k {
            return true;
        }
        i = i + 1;
    }
    proof {
        assert(!allowed@.contains(k));
    }
    false
}

/// The projection to a kind is total: every event has a kind, and two events
/// of the same kind are treated alike by every policy.
pub proof fn lemma_matches_by_kind(e1: Event, e2: Event, allowed: Seq<EventKind>)
    requires
        kind_of(e1) == kind_of(e2),
    ensures
        spec_matches(e1, allowed) == spec_matches(e2, allowed),
{
}

} // verus!
