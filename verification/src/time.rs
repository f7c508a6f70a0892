//! Time as the recognizer counts it: whole microseconds since a clock was
//! started, never decreasing.

use vstd::prelude::*;
use core::time::Duration;

verus! {

/// The number of microseconds in a second.
pub const MICROS_PER_SECOND: u64 = 1_000_000;

/// `web_time::Instant`, a point on the platform's monotonic clock. Nothing
/// is known about a value of it.
#[verifier::external_type_specification]
#[verifier::external_body]
pub struct ExInstant(web_time::Instant);

/// Reads the platform's monotonic clock with `web_time::Instant::now`.
/// Nothing is claimed about the reading. In a browser the call panics where
/// the page offers no `Performance` object, as in a worklet.
#[verifier::external_body]
fn instant_now() -> (now: web_time::Instant) {
    web_time::Instant::now()
}

/// The time from `earlier` to `later`, by
/// `web_time::Instant::saturating_duration_since`, which gives zero where
/// `earlier` is the later of the two. Nothing is claimed about the result.
#[verifier::external_body]
fn duration_between(later: &web_time::Instant, earlier: &web_time::Instant) -> (span: Duration) {
    later.saturating_duration_since(*earlier)
}

/// The whole microseconds in `span`, by `Duration::as_micros`. Nothing is
/// claimed about the result.
#[verifier::external_body]
fn duration_micros(span: &Duration) -> (micros: u128) {
    span.as_micros()
}

/// The reading that follows `latest` when the platform reports `micros`.
pub open spec fn next_reading(latest: u64, micros: u128) -> u64 {
    if micros <= latest {
        latest
    } else if micros > u64::MAX {
        u64::MAX
    } else {
        micros as u64
    }
}

/// A source of timestamps: microseconds since the clock was started. The
/// readings of one clock never decrease, whatever the platform reports.
pub struct Clock {
    origin: web_time::Instant,
    latest: u64,
}

impl Clock {
    /// The latest reading handed out, or zero before the first.
    pub closed spec fn latest(&self) -> u64 {
        self.latest
    }

    /// Starts a clock at the present moment.
    pub fn start() -> (clock: Clock)
        ensures
            clock.latest() == 0,
    {
        Clock { origin: instant_now(), latest: 0 }
    }

    /// Turns what the platform reports, `micros` since the start, into the
    /// next reading: `micros` itself, but no more than `u64::MAX` and no
    /// less than the reading before.
    pub fn observe(&mut self, micros: u128) -> (now: u64)
        ensures
            now == next_reading(old(self).latest(), micros),
            final(self).latest() == now,
    {
        let reading: u64 = if micros > u64::MAX as u128 {
            u64::MAX
        } else {
            micros as u64
        };
        if reading > self.latest {
            self.latest = reading;
        }
        self.latest
    }

    /// The microseconds since the clock was started, as the platform's
    /// monotonic clock counts them. A reading is never below the one before
    /// it, even where the platform reports less.
    pub fn now_micros(&mut self) -> (now: u64)
        ensures
            old(self).latest() <= now,
            final(self).latest() == now,
    {
        let present = instant_now();
        let span = duration_between(&present, &self.origin);
        let micros = duration_micros(&span);
        self.observe(micros)
    }
}

/// The time between two readings for a frame timer: `now - since`, or zero
/// where the clock ran backward.
pub open spec fn span_between(since: u64, now: u64) -> u64 {
    if now >= since {
        (now - since) as u64
    } else {
        0
    }
}

/// Measures the time from one frame to the next.
#[derive(Clone, Copy, Debug, PartialEq, Eq)]
pub struct FrameTimer {
    /// When the last frame was drawn.
    pub last_timestep: u64,
}

impl FrameTimer {
    /// A timer whose first frame is measured from `now`.
    pub fn new(now: u64) -> (timer: FrameTimer)
        ensures
            timer.last_timestep == now,
    {
        FrameTimer { last_timestep: now }
    }

    /// Marks a frame at time `now` and gives the microseconds since the
    /// frame before.
    pub fn lap(&mut self, now: u64) -> (dt: u64)
        ensures
            dt == span_between(old(self).last_timestep, now),
            final(self).last_timestep == now,
    {
        let dt: u64 = if now >= self.last_timestep {
            now - self.last_timestep
        } else {
            0
        };
        self.last_timestep = now;
        dt
    }
}

} // verus!
