use vstd::prelude::*;
use std::time::{Duration, Instant};

verus! {

#[verifier::external_type_specification]
#[verifier::external_body]
pub struct ExInstant(std::time::Instant);

/// Calls `std::time::Instant::now`; the current time, of which nothing is stated.
#[verifier::external_body]
pub(crate) fn now() -> Instant {
    Instant::now()
}

/// Calls `std::time::Instant::elapsed`; the time since `since`, of which nothing is stated.
#[verifier::external_body]
pub(crate) fn elapsed_since(since: &Instant) -> Duration {
    since.elapsed()
}

/// `i` is an instant that one call of `now` can return: a reading of the clock.
pub open(crate) spec fn read_now(i: Instant) -> bool {
    call_ensures(now, (), i)
}

/// `d` is a duration that one call of `elapsed_since(&since)` can return: the time measured
/// from `since` to a reading of the clock.
pub open(crate) spec fn measured_since(since: Instant, d: Duration) -> bool {
    call_ensures(elapsed_since, (&since,), d)
}

/// Calls `<std::time::Duration as Default>::default`, the zero duration; nothing is stated
/// of the value.
#[verifier::external_body]
pub(crate) fn zero_duration() -> Duration {
    Duration::default()
}

} // verus!
