//! Correlation ids.

use vstd::prelude::*;

verus! {

/// `Uuid::new_v4` shown as text: a fresh correlation id, drawn at random.
/// Nothing is claimed of it: what the caller does must hold for every id.
#[verifier::external_body]
pub(crate) fn fresh_id() -> (r: String) {
    uuid::Uuid::new_v4().to_string()
}

} // verus!
