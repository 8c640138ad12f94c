use vstd::prelude::*;

verus! {

/// Relies on chrono's `Utc::now` and `DateTime::timestamp_millis`: the
/// current wall-clock time as milliseconds since the Unix epoch. Nothing can
/// be promised of a clock reading; callers state what holds of every
/// outcome. `Utc::now` itself requires the system clock not to predate the
/// Unix epoch.
#[verifier::external_body]
pub(crate) fn now_millis() -> i64 {
    chrono::Utc::now().timestamp_millis()
}

} // verus!
