use vstd::prelude::*;

verus! {

/// Relies on chrono::Utc::now (read through
/// chrono::DateTime::timestamp_micros) for the current wall-clock instant in
/// microseconds since the Unix epoch. The value depends on the machine's
/// clock, so nothing is promised of it; callers state what holds whatever
/// instant comes back. chrono aborts when the system clock reads before the
/// epoch.
#[verifier::external_body]
pub(crate) fn now_micros() -> i64 {
    chrono::Utc::now().timestamp_micros()
}

} // verus!
