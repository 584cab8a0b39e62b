use vstd::prelude::*;

verus! {

/// Relies on `chrono::Utc::now` and `chrono::DateTime::timestamp`: the
/// current time as non-leap seconds since the Unix epoch.  The value depends
/// on the wall clock, so nothing is promised beyond its sign; `Utc::now`
/// itself panics only if the system clock reads before the epoch.
#[verifier::external_body]
pub(crate) fn now_seconds() -> (r: i64)
    ensures
        r >= 0,
{
    chrono::Utc::now().timestamp()
}

} // verus!
