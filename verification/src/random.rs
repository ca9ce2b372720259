//! Where request ids come from.

use vstd::prelude::*;

verus! {

/// Draws a request id with `rand::random`.
///
/// Trusted, and nothing is claimed of it: whatever number comes back is a
/// request id.
#[verifier::external_body]
pub(crate) fn random_request_id() -> (id: u32) {
    rand::random()
}

} // verus!
