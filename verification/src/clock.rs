//! Monotonic time points, used by the double-click and resize debouncing logic.
use vstd::prelude::*;

verus! {

#[verifier::external_type_specification]
#[verifier::external_body]
pub struct ExInstant(std::time::Instant);

/// Calls `std::time::Instant::now`. The time point depends on the machine's
/// clock, so nothing is stated of it.
#[verifier::external_body]
pub(crate) fn instant_now() -> (t: std::time::Instant) {
    std::time::Instant::now()
}

/// Calls `std::time::Instant::saturating_duration_since`: the time from
/// `earlier` to `later`, zero when `earlier` is the later point (it does not
/// panic). The time points are opaque to Verus, so nothing is stated of the
/// result.
#[verifier::external_body]
pub(crate) fn duration_since(later: &std::time::Instant, earlier: &std::time::Instant) -> (d: std::time::Duration) {
    later.saturating_duration_since(*earlier)
}

} // verus!

verus! {

#[verifier::external_type_specification]
#[verifier::external_body]
pub struct ExSystemTime(std::time::SystemTime);

/// Calls `std::time::SystemTime::now`. The wall-clock time depends on the
/// machine, so nothing is stated of it.
#[verifier::external_body]
pub(crate) fn system_time_now() -> (t: std::time::SystemTime) {
    std::time::SystemTime::now()
}

/// Calls `SystemTime::duration_since` with `UNIX_EPOCH`: the time since the
/// epoch, None when `t` is before it. Nothing is stated of the outcome.
#[verifier::external_body]
pub(crate) fn since_unix_epoch(t: &std::time::SystemTime) -> (d: Option<std::time::Duration>) {
    t.duration_since(std::time::UNIX_EPOCH).ok()
}

/// Calls `Duration::as_nanos`. The duration is opaque to Verus, so nothing
/// is stated of the result.
#[verifier::external_body]
pub(crate) fn duration_as_nanos(d: &std::time::Duration) -> (n: u128) {
    d.as_nanos()
}

/// Calls `Duration::as_millis`. The duration is opaque to Verus, so nothing
/// is stated of the result.
#[verifier::external_body]
pub(crate) fn duration_as_millis(d: &std::time::Duration) -> (n: u128) {
    d.as_millis()
}

} // verus!
