use vstd::prelude::*;

verus! {

/// Relies on chrono's `Utc::now`, rendered with `DateTime::to_rfc3339`: yields
/// the current UTC wall-clock time as text. The result depends on the clock,
/// so nothing is promised about it.
#[verifier::external_body]
pub(crate) fn utc_now_text() -> String {
    chrono::Utc::now().to_rfc3339()
}

} // verus!
