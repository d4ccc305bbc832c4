//! The creation-timestamp source.

use vstd::prelude::*;

verus! {

/// Relies on `chrono::Utc::now().to_rfc3339()`: the current instant
/// rendered as an RFC 3339 timestamp. The value depends on the wall
/// clock, so nothing is assumed of it.
#[verifier::external_body]
pub fn now_rfc3339() -> String {
    chrono::Utc::now().to_rfc3339()
}

} // verus!
