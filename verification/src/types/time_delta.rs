use vstd::prelude::*;
use std::time::{Duration, Instant};
use crate::types::clock::{elapsed_since, measured_since, now, read_now};

verus! {

/// The time between two consecutive frames.
pub struct TimeDelta {
    last: Instant,
    last_recorded_delta: Duration,
}

impl TimeDelta {
    /// The delta recorded at the latest frame.
    pub closed spec fn spec_delta(&self) -> Duration {
        self.last_recorded_delta
    }

    /// When the latest frame started.
    pub closed spec fn spec_last(&self) -> Instant {
        self.last
    }

    /// A delta that started measuring at `last` and recorded `elapsed` so far.
    pub fn from_readings(last: Instant, elapsed: Duration) -> (r: TimeDelta)
        ensures
            r.spec_last() == last,
            r.spec_delta() == elapsed,
    {
        TimeDelta { last, last_recorded_delta: elapsed }
    }

    /// A new frame: `elapsed`, the time read since the latest frame started, becomes the
    /// recorded delta, and `now` the start of the new frame.
    pub fn advance(&mut self, elapsed: Duration, now: Instant)
        ensures
            final(self).spec_delta() == elapsed,
            final(self).spec_last() == now,
    {
        self.last_recorded_delta = elapsed;
        self.last = now;
    }

    /// Starts measuring now; the first delta is the time measured from that start. Both come
    /// from the clock: of their values nothing is stated beyond that.
    pub fn new() -> (r: TimeDelta)
        ensures
            read_now(r.spec_last()),
            measured_since(r.spec_last(), r.spec_delta()),
    {
        let last = now();
        let elapsed = elapsed_since(&last);
        TimeDelta::from_readings(last, elapsed)
    }

    /// Records the time since the latest frame started and starts a new frame: the delta is
    /// measured from the previous start, and the new start is a later reading of the clock.
    pub fn next(&mut self)
        ensures
            measured_since(old(self).spec_last(), final(self).spec_delta()),
            read_now(final(self).spec_last()),
    {
        let elapsed = elapsed_since(&self.last);
        let start = now();
        self.advance(elapsed, start);
    }

    /// The delta recorded by the latest `next`.
    pub fn delta_time(&self) -> (r: &Duration)
        ensures
            *r == self.spec_delta(),
    {
        &self.last_recorded_delta
    }
}

impl Default for TimeDelta {
    fn default() -> (r: Self)
        ensures
            read_now(r.spec_last()),
            measured_since(r.spec_last(), r.spec_delta()),
    {
        TimeDelta::new()
    }
}

} // verus!
