//! Decision logic for a project-board webhook service.
//!
//! When a board item is reordered, the service looks up the item's field
//! values and linked issue, and closes the issue when the item's "Status"
//! field reads "Done".  Everything that can be decided from plain values is
//! verified here; the HTTP server and the remote API calls live outside the
//! library and only carry values to and from it.

use vstd::prelude::*;

pub mod json;
pub mod pipeline;
pub mod query;

verus! {

/// The fixed body with which every webhook call is acknowledged,
/// whatever came of it internally.
pub fn acknowledgment() -> (r: String)
    ensures
        r@ == "Webhook received"@,
{
    "Webhook received".to_owned()
}

} // verus!
