//! Identifier generation for stored entities.
//!
//! Every entity is keyed by a 128-bit identifier drawn at creation time.

use vstd::prelude::*;

verus! {

/// Relies on uuid::Uuid::new_v4 for a freshly drawn random version-4 UUID,
/// handed on as its 128-bit value. Nothing is assumed of the draw: callers
/// must cope with every possible value, a repeated one included.
#[verifier::external_body]
pub(crate) fn fresh_id() -> u128 {
    uuid::Uuid::new_v4().as_u128()
}

} // verus!
