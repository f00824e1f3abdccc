//! Small informational endpoints.
use vstd::prelude::*;

verus! {

/// The query of a breach lookup; the lookup always answers with an empty list.
pub struct HibpBreachQuery {
    pub username: String,
}

} // verus!
