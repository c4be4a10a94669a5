//! The current time, for the callers that need one to stamp records with.

use vstd::prelude::*;

verus! {

/// Relies on chrono::Utc::now for the current time, handed on as
/// milliseconds since the Unix epoch. Nothing is assumed of the clock's
/// reading: callers must cope with every value, a negative or extreme one
/// included.
#[verifier::external_body]
pub(crate) fn now_millis() -> i64 {
    chrono::Utc::now().timestamp_millis()
}

} // verus!
