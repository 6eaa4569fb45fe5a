//! The wall clock.

use vstd::prelude::*;

verus! {

/// The current date and time of day in UTC: `std::time::SystemTime::now()`,
/// turned into a `chrono::DateTime<Utc>` by chrono's `From<SystemTime>`, then
/// `naive_utc()` on that.
///
/// The value comes from the system clock, so nothing is claimed of it, and two
/// calls may differ. A clock that reads a time before 1970 gives that time:
/// chrono's conversion counts backwards from the epoch. The conversion
/// panics only on a reading outside the years that chrono can hold, -262143
/// to 262142.
#[verifier::external_body]
pub(crate) fn utc_now() -> chrono::NaiveDateTime {
    chrono::DateTime::<chrono::Utc>::from(std::time::SystemTime::now()).naive_utc()
}

} // verus!
