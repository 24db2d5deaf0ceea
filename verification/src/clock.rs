use vstd::prelude::*;

use std::time::{Duration, Instant};

verus! {

/// Nanoseconds in one second.
pub const NANOS_PER_SEC: u128 = 1_000_000_000;

/// The largest reading the clock can give: the longest `Duration`
/// (`u64::MAX` seconds and 999 999 999 nanoseconds), in nanoseconds.
pub const MAX_CLOCK_NANOS: u128 = 18_446_744_073_709_551_615_999_999_999;

#[verifier::external_type_specification]
#[verifier::external_body]
pub struct ExInstant(Instant);

/// A point in time on a scheduler's monotonic clock, in nanoseconds since the
/// clock was started.
#[derive(Clone, Copy, PartialEq, Eq, Structural, Debug)]
pub struct Moment {
    pub nanos: u128,
}

impl Moment {
    /// A moment that a clock can actually report.
    pub open spec fn is_clock_reading(self) -> bool {
        self.nanos <= MAX_CLOCK_NANOS
    }

    /// The moment `secs` whole seconds after `self`.
    pub open spec fn plus_secs(self, secs: int) -> Moment {
        Moment { nanos: (self.nanos + secs * NANOS_PER_SEC) as u128 }
    }

    /// Whether `now` has reached this moment.
    pub open spec fn reached_by(self, now: Moment) -> bool {
        now.nanos >= self.nanos
    }

    /// The moment `secs` seconds after `self` (`Instant + Duration::from_secs`).
    pub fn after_secs(self, secs: u64) -> (later: Moment)
        requires
            self.is_clock_reading(),
        ensures
            later.nanos == self.nanos + secs * NANOS_PER_SEC,
            later == self.plus_secs(secs as int),
    {
        Moment { nanos: self.nanos + (secs as u128) * NANOS_PER_SEC }
    }

    /// Whether `now` has reached this moment (`now >= deadline`).
    pub fn is_reached_by(self, now: Moment) -> (reached: bool)
        ensures
            reached == self.reached_by(now),
    {
        now.nanos >= self.nanos
    }
}

/// Whole seconds left until `deadline` at `now`, rounded up, zero once the
/// deadline has passed, and at most `u32::MAX`.
pub open spec fn remaining_secs_spec(deadline: Moment, now: Moment) -> u32 {
    let rem: int = if deadline.nanos > now.nanos { deadline.nanos - now.nanos } else { 0 };
    let secs: int = rem / (NANOS_PER_SEC as int) + if rem % (NANOS_PER_SEC as int) == 0 { 0int } else { 1int };
    if secs > u32::MAX { u32::MAX } else { secs as u32 }
}

/// Seconds left until `deadline` as seen at `now`, rounded up.
pub fn remaining_secs(deadline: Moment, now: Moment) -> (secs: u32)
    ensures
        secs == remaining_secs_spec(deadline, now),
{
    let rem: u128 = if deadline.nanos > now.nanos { deadline.nanos - now.nanos } else { 0 };
    let whole: u128 = rem / NANOS_PER_SEC;
    let secs: u128 = if rem % NANOS_PER_SEC == 0 { whole } else { whole + 1 };
    if secs > 0xffff_ffff { u32::MAX } else { secs as u32 }
}

/// A deadline `secs` seconds after `now` has exactly `secs` seconds left at `now`.
pub proof fn lemma_remaining_after(now: Moment, secs: u32)
    requires
        now.is_clock_reading(),
    ensures
        now.plus_secs(secs as int).nanos == now.nanos + secs * NANOS_PER_SEC,
        remaining_secs_spec(now.plus_secs(secs as int), now) == secs,
{
    let s = secs as int;
    assert((s * 1_000_000_000) / 1_000_000_000 == s && (s * 1_000_000_000) % 1_000_000_000 == 0)
        by (nonlinear_arith);
}

/// A deadline at most `bound` seconds after `now` has at most `bound` seconds left.
pub proof fn lemma_remaining_at_most(deadline: Moment, now: Moment, bound: u32)
    requires
        deadline.nanos <= now.nanos + bound * NANOS_PER_SEC,
    ensures
        remaining_secs_spec(deadline, now) <= bound,
{
    let rem: int = if deadline.nanos > now.nanos { deadline.nanos - now.nanos } else { 0 };
    let b = bound as int;
    assert(rem / 1_000_000_000 + (if rem % 1_000_000_000 == 0 { 0int } else { 1int }) <= b)
        by (nonlinear_arith)
        requires
            0 <= rem <= b * 1_000_000_000,
    ;
}

/// `Instant::now`: a reading of the operating system's monotonic clock.
/// Nothing is claimed of the value.
#[verifier::external_body]
fn instant_now() -> Instant {
    Instant::now()
}

/// `Instant::elapsed`: the time since `origin`. It depends on the moment of
/// the call, so nothing is claimed of it.
#[verifier::external_body]
fn instant_elapsed(origin: &Instant) -> Duration {
    origin.elapsed()
}

/// `Duration::as_secs`: the whole seconds of `d`. `Duration` is opaque here,
/// so no relation to `d` is stated.
#[verifier::external_body]
fn duration_whole_secs(d: &Duration) -> u64 {
    d.as_secs()
}

/// `Duration::subsec_nanos`: the fractional part of `d` in nanoseconds, which
/// its documentation says is always less than one billion.
#[verifier::external_body]
fn duration_subsec_nanos(d: &Duration) -> (nanos: u32)
    ensures
        nanos < 1_000_000_000,
{
    d.subsec_nanos()
}

/// A monotonic clock that reports [`Moment`]s counted from when it was started.
pub struct MonotonicClock {
    origin: Instant,
}

impl MonotonicClock {
    /// Starts a clock at the current instant.
    pub fn start() -> (clock: MonotonicClock) {
        MonotonicClock { origin: instant_now() }
    }

    /// The current moment on this clock.
    pub fn now(&self) -> (now: Moment)
        ensures
            now.is_clock_reading(),
    {
        let elapsed = instant_elapsed(&self.origin);
        let secs = duration_whole_secs(&elapsed);
        let sub = duration_subsec_nanos(&elapsed);
        assert((secs as u128) * NANOS_PER_SEC + (sub as u128) <= MAX_CLOCK_NANOS) by (nonlinear_arith)
            requires
                secs <= u64::MAX,
                sub < 1_000_000_000,
        ;
        Moment { nanos: (secs as u128) * NANOS_PER_SEC + (sub as u128) }
    }
}

} // verus!
