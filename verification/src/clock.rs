//! Wall-clock reading used to timestamp log entries.

use vstd::prelude::*;

verus! {

/// Relies on `chrono::Utc::now` and `DateTime::format` with `"%H:%M:%S"`:
/// hour, minute and second are each zero-padded to two digits, so the
/// rendered clock reading is always eight characters.  The value itself
/// depends on the time of the call, so nothing more is promised.
#[verifier::external_body]
pub(crate) fn clock_hhmmss() -> (r: String)
    ensures
        r@.len() == 8,
{
    chrono::Utc::now().format("%H:%M:%S").to_string()
}

} // verus!
