//! Fresh identifiers for nodes, messages and transfers.

use vstd::prelude::*;

verus! {

/// A new random identifier.
///
/// Calls `uuid::Uuid::new_v4` and renders the result as text. The value is
/// random, so nothing is claimed of it. The call fails only where the
/// system has no source of random bytes.
#[verifier::external_body]
pub(crate) fn fresh_id() -> (id: String) {
    uuid::Uuid::new_v4().to_string()
}

} // verus!
