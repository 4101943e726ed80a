//! The payloads the status endpoints answer with.
//!
//! The transport layer serves two endpoints over the blinds state: a status
//! query and a toggle.  Both answer with the same one-field JSON document,
//! built here so the body is pinned exactly.

use vstd::prelude::*;

verus! {

/// The JSON document reporting whether the blinds are open.
pub open spec fn status_payload_spec(open: bool) -> Seq<char> {
    if open {
        "{\"open\":true}"@
    } else {
        "{\"open\":false}"@
    }
}

/// The body of a status or toggle answer for the given blinds position.
pub fn status_payload(open: bool) -> (r: &'static str)
    ensures
        r@ == status_payload_spec(open),
{
    if open {
        "{\"open\":true}"
    } else {
        "{\"open\":false}"
    }
}

} // verus!
