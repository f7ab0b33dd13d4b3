//! A per-call-site delta timer, independent of the scheduler's own clock.
//!
//! Not every system runs on every tick, and the scheduler can be ticked
//! several times during one host frame, so a system that needs elapsed time
//! keeps its own [`SystemDeltaTimer`]. The timer holds the instant of its
//! previous observation; each call returns the time since that observation
//! and stores the new one. The very first call at a call-site has no
//! previous observation and returns a delta of exactly zero.

use vstd::prelude::*;

verus! {

#[verifier::external_type_specification]
#[verifier::external_body]
pub struct ExInstant(std::time::Instant);

/// Relies on `std::time::Instant::now`: an opaque reading of the monotonic
/// clock. The value depends on the machine and the moment, so nothing is
/// promised of it.
#[verifier::external_body]
fn instant_now() -> std::time::Instant {
    std::time::Instant::now()
}

/// Relies on `std::time::Instant::saturating_duration_since`: the time
/// elapsed from `earlier` to `later`, or zero if `earlier` is the later of
/// the two; it never panics. Both instants are opaque readings of the
/// monotonic clock, so nothing is promised of the result.
#[verifier::external_body]
fn elapsed_between(later: &std::time::Instant, earlier: &std::time::Instant) -> std::time::Duration {
    later.saturating_duration_since(*earlier)
}

/// Relies on `core::time::Duration::as_nanos`: the whole duration counted
/// in nanoseconds (a count above `u64::MAX` nanoseconds — over five
/// centuries — is truncated by the cast).
#[verifier::external_body]
fn duration_nanos(d: &std::time::Duration) -> u64 {
    d.as_nanos() as u64
}

/// Per-call-site elapsed-time tracker: the instant of the previous call,
/// if there has been one. Created lazily, updated on every call, never
/// explicitly destroyed.
pub struct SystemDeltaTimer {
    /// The instant observed by the previous call at this call-site.
    pub last_time: Option<std::time::Instant>,
}

impl SystemDeltaTimer {
    /// A timer with no previous observation: its next delta is zero.
    pub fn new() -> (t: SystemDeltaTimer)
        ensures
            t.last_time is None,
    {
        SystemDeltaTimer { last_time: None }
    }

    /// The time passed since the previous call at this call-site, in
    /// nanoseconds. A fresh call-site has nothing to measure against, so
    /// the first call returns exactly zero; every call stores the instant
    /// it observed for the next one. The instants themselves are opaque
    /// clock readings, so no more can be stated of a later call's value.
    pub fn delta(&mut self) -> (d: u64)
        ensures
            old(self).last_time is None ==> d == 0,
            final(self).last_time is Some,
    {
        let now = instant_now();
        let d: u64 = match &self.last_time {
            None => 0,
            Some(prev) => duration_nanos(&elapsed_between(&now, prev)),
        };
        self.last_time = Some(now);
        d
    }
}

impl Default for SystemDeltaTimer {
    /// Same as [`SystemDeltaTimer::new`]: a timer with no previous
    /// observation.
    fn default() -> (t: SystemDeltaTimer)
        ensures
            t.last_time is None,
    {
        SystemDeltaTimer { last_time: None }
    }
}

} // verus!
