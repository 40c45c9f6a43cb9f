//! The wall clock.

use vstd::prelude::*;

verus! {

/// Reads the wall clock with `chrono::Utc::now()` and returns
/// `DateTime::timestamp()` of it: whole seconds since the Unix epoch.
///
/// Nothing is promised of the value: it is what the machine's clock says.
/// Where that clock stands before the epoch, chrono ends the process.
#[verifier::external_body]
pub(crate) fn unix_now() -> (secs: i64)
{
    chrono::Utc::now().timestamp()
}

} // verus!
