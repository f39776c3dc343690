use vstd::prelude::*;
use std::time::Instant;

verus! {

/// `std::time::Instant`: an opaque reference point on the operating
/// system's monotonic clock. The clock below reads it only through the
/// two wrappers that follow.
#[verifier::external_type_specification]
#[verifier::external_body]
pub struct ExInstant(Instant);

/// Relies on `std::time::Instant::now` for a fresh reference point.
/// The value is opaque; nothing is assumed of it.
#[verifier::external_body]
fn monotonic_now() -> Instant {
    Instant::now()
}

/// Relies on `std::time::Instant::elapsed` for the whole nanoseconds
/// since `start`, clamped into `u64`. The result depends on the wall
/// clock, so nothing is assumed of it: callers hold for every outcome.
#[verifier::external_body]
fn elapsed_nanos(start: &Instant) -> u64 {
    u64::try_from(start.elapsed().as_nanos()).unwrap_or(u64::MAX)
}

/// The abstract state of the frame clock, all in nanoseconds since the
/// reference instant fixed at construction; `started` records whether
/// the clock has advanced at least once.
pub struct TimeModel {
    pub now: u64,
    pub last: u64,
    pub delta: u64,
    pub frame_delay: u64,
    pub started: bool,
}

/// The frame clock: elapsed timestamps, the delta between the last two
/// frames, and the target frame duration derived from a target rate.
pub struct TimeContext {
    now: u64,
    last: u64,
    delta: u64,
    frame_delay: u64,
    started: bool,
    start: Instant,
}

impl View for TimeContext {
    type V = TimeModel;

    closed spec fn view(&self) -> TimeModel {
        TimeModel {
            now: self.now,
            last: self.last,
            delta: self.delta,
            frame_delay: self.frame_delay,
            started: self.started,
        }
    }
}

pub const NANOS_PER_SECOND: u64 = 1_000_000_000;

impl TimeContext {
    /// In every reachable clock state the two timestamps agree: `last`
    /// is set to `now` by construction and by every advance.
    pub open spec fn wf(&self) -> bool {
        self@.last == self@.now
    }

    /// A clock aimed at `target_fps` frames per second.
    pub fn new(target_fps: u32) -> (c: Self)
        requires
            1 <= target_fps,
        ensures
            c@.now == 0,
            c@.last == 0,
            c@.frame_delay == NANOS_PER_SECOND / target_fps as u64,
            c@.delta == c@.frame_delay,
            !c@.started,
            c.wf(),
    {
        let frame_delay: u64 = NANOS_PER_SECOND / target_fps as u64;
        TimeContext {
            now: 0,
            last: 0,
            delta: frame_delay,
            frame_delay,
            started: false,
            start: monotonic_now(),
        }
    }

    /// Moves the clock forward to `elapsed` nanoseconds since the
    /// reference instant. The first advance establishes the baseline:
    /// it sets the timestamps from the reading but keeps `delta` at the
    /// target frame duration, so the first delta a frame sees is
    /// neither zero nor a cold-start spike. Later advances report the
    /// time since the previous one. A reading behind the clock's own
    /// past is ignored, so `now` never decreases and `delta` is never
    /// negative, whatever the platform clock returned.
    pub fn advance_to(&mut self, elapsed: u64)
        ensures
            final(self)@.now == (if elapsed >= old(self)@.now {
                elapsed
            } else {
                old(self)@.now
            }),
            final(self)@.now >= old(self)@.now,
            !old(self)@.started ==> final(self)@.delta == old(self)@.frame_delay,
            old(self)@.started ==> final(self)@.delta == (if final(self)@.now >= old(self)@.last {
                final(self)@.now - old(self)@.last
            } else {
                0int
            }),
            final(self)@.last == final(self)@.now,
            final(self)@.frame_delay == old(self)@.frame_delay,
            final(self)@.started,
            final(self).wf(),
    {
        let now = if elapsed >= self.now {
            elapsed
        } else {
            self.now
        };
        self.delta = if !self.started {
            self.frame_delay
        } else if now >= self.last {
            now - self.last
        } else {
            0
        };
        self.now = now;
        self.last = now;
        self.started = true;
    }

    /// Samples the platform clock and advances; run once per frame.
    /// The first call reports the target frame duration as the delta;
    /// later calls report the time since the previous one. `now` never
    /// decreases and `last` tracks it, whatever the platform clock
    /// returned.
    pub fn update(&mut self)
        ensures
            final(self)@.now >= old(self)@.now,
            !old(self)@.started ==> final(self)@.delta == old(self)@.frame_delay,
            old(self)@.started ==> final(self)@.delta == (if final(self)@.now >= old(self)@.last {
                final(self)@.now - old(self)@.last
            } else {
                0int
            }),
            final(self)@.last == final(self)@.now,
            final(self)@.frame_delay == old(self)@.frame_delay,
            final(self)@.started,
            final(self).wf(),
    {
        let elapsed = elapsed_nanos(&self.start);
        self.advance_to(elapsed);
    }

    /// How long to pause before the next frame, given that `elapsed`
    /// nanoseconds have passed since the reference instant: the
    /// remainder of the target frame duration, and zero once the frame
    /// has already taken at least that long. Never more than the target
    /// frame duration, so pacing cannot oversleep.
    pub fn pace_nanos(&self, elapsed: u64) -> (r: u64)
        ensures
            r == (if elapsed < self@.last {
                self@.frame_delay
            } else if elapsed - self@.last >= self@.frame_delay {
                0u64
            } else {
                (self@.frame_delay - (elapsed - self@.last)) as u64
            }),
            r <= self@.frame_delay,
            elapsed >= self@.last && elapsed - self@.last >= self@.frame_delay ==> r == 0,
    {
        let spent: u64 = if elapsed >= self.last {
            elapsed - self.last
        } else {
            0
        };
        if spent >= self.frame_delay {
            0
        } else {
            self.frame_delay - spent
        }
    }

    /// Samples the platform clock and returns the nanoseconds the
    /// caller should sleep to approximate the target rate; at most one
    /// target frame duration. The sleep itself is the caller's: this
    /// core never blocks.
    pub fn wait_sync(&self) -> (r: u64)
        ensures
            r <= self@.frame_delay,
    {
        let elapsed = elapsed_nanos(&self.start);
        self.pace_nanos(elapsed)
    }

    /// Elapsed nanoseconds at the last `update`.
    pub fn now(&self) -> (r: u64)
        ensures
            r == self@.now,
    {
        self.now
    }

    /// Nanoseconds between the last two `update` calls; the target
    /// frame duration until the second `update`.
    pub fn delta(&self) -> (r: u64)
        ensures
            r == self@.delta,
    {
        self.delta
    }

    /// The target frame duration in nanoseconds.
    pub fn frame_delay(&self) -> (r: u64)
        ensures
            r == self@.frame_delay,
    {
        self.frame_delay
    }
}

} // verus!
