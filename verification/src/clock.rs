//! The monotonic tick source that the driver and the watcher read.
//!
//! Hardware supplies the real counter; everything the rest of the crate
//! relies on is captured by the [`TickClock`] contract: readings never
//! decrease and always stay below [`crate::TICK_LIMIT`]. [`SimClock`] is a
//! deterministic in-memory implementation used to drive the core without
//! hardware; it can advance by a fixed step at every reading, which models
//! time passing between the moment a target is computed and the moment it
//! is validated.

use vstd::prelude::*;
use crate::TICK_LIMIT;

verus! {

/// A monotonically non-decreasing tick counter.
///
/// `reading` is the abstract current count. Every call of `now` returns a
/// value at least as large as every earlier one, and readings stay below
/// `TICK_LIMIT`, so `reading + CENTURY_TICKS` never overflows and never
/// collides with the `TICK_MAX` sentinel.
pub trait TickClock {
    /// The current abstract tick count.
    spec fn reading(&self) -> u64;

    /// Read the counter. The result is at least the previous reading and
    /// at most the reading after the call, so successive results never
    /// decrease.
    fn now(&mut self) -> (r: u64)
        ensures
            old(self).reading() <= r,
            r <= final(self).reading(),
            final(self).reading() < TICK_LIMIT,
    ;
}

/// A deterministic clock: reports `ticks`, then advances by `step`
/// (saturating just below `TICK_LIMIT`). With `step == 0` time stands
/// still between explicit `advance_to` calls; with `step > 0` every
/// reading moves time forward, which exercises the rearm retry path.
pub struct SimClock {
    ticks: u64,
    step: u64,
}

impl SimClock {
    /// The per-reading advance.
    pub closed spec fn step_size(self) -> u64 {
        self.step
    }

    pub fn new(start: u64, step: u64) -> (c: SimClock)
        requires
            start < TICK_LIMIT,
        ensures
            c.reading() == start,
            c.step_size() == step,
    {
        SimClock { ticks: start, step }
    }

    /// Move time forward to `t`.
    pub fn advance_to(&mut self, t: u64)
        requires
            old(self).reading() <= t,
            t < TICK_LIMIT,
        ensures
            final(self).reading() == t,
            final(self).step_size() == old(self).step_size(),
    {
        self.ticks = t;
    }
}

#[verifier::external_type_specification]
#[verifier::external_body]
pub struct ExInstant(std::time::Instant);

/// Relies on `std::time::Instant::now` for a base instant to measure from.
/// Nothing is assumed of the value.
#[verifier::external_body]
fn instant_now() -> std::time::Instant {
    std::time::Instant::now()
}

/// Relies on `std::time::Instant::elapsed` for the nanoseconds since
/// `base`. Nothing is assumed of the result: the caller establishes
/// monotonicity and bounds itself.
#[verifier::external_body]
fn nanos_since(base: &std::time::Instant) -> u128 {
    base.elapsed().as_nanos()
}

/// A tick source backed by the host's monotonic clock, standing where a
/// hardware counter would on a board. The raw nanosecond reading is
/// converted to ticks at 32768 per second; whatever the host returns, the
/// published reading never decreases and never reaches `TICK_LIMIT`,
/// because it is clamped against the previous one.
pub struct WallClock {
    base: std::time::Instant,
    last: u64,
}

impl WallClock {
    pub fn new() -> (c: WallClock)
        ensures
            c.reading() == 0,
    {
        WallClock { base: instant_now(), last: 0 }
    }
}

impl TickClock for WallClock {
    closed spec fn reading(&self) -> u64 {
        if self.last < TICK_LIMIT {
            self.last
        } else {
            (TICK_LIMIT - 1) as u64
        }
    }

    fn now(&mut self) -> (r: u64) {
        let n = nanos_since(&self.base);
        // Cap the raw count (the cap is centuries away), then convert to
        // ticks; the capped product stays far below every overflow bound.
        let capped: u128 = if n > 0xffff_ffff_ffff_ffffu128 {
            0xffff_ffff_ffff_ffffu128
        } else {
            n
        };
        let ticks: u128 = capped * 32_768 / 1_000_000_000;
        assert(ticks < TICK_LIMIT as u128);
        let t: u64 = ticks as u64;
        let prev: u64 = if self.last < TICK_LIMIT {
            self.last
        } else {
            TICK_LIMIT - 1
        };
        let r: u64 = if t > prev {
            t
        } else {
            prev
        };
        self.last = r;
        r
    }
}

impl TickClock for SimClock {
    closed spec fn reading(&self) -> u64 {
        if self.ticks < TICK_LIMIT {
            self.ticks
        } else {
            (TICK_LIMIT - 1) as u64
        }
    }

    fn now(&mut self) -> (r: u64)
        ensures
            r == old(self).reading(),
            final(self).step_size() == old(self).step_size(),
            final(self).reading() == if old(self).reading() + old(self).step_size() < TICK_LIMIT {
                (old(self).reading() + old(self).step_size()) as u64
            } else {
                (TICK_LIMIT - 1) as u64
            },
    {
        let cur: u64 = if self.ticks < TICK_LIMIT {
            self.ticks
        } else {
            TICK_LIMIT - 1
        };
        let room: u64 = (TICK_LIMIT - 1) - cur;
        let add: u64 = if self.step < room {
            self.step
        } else {
            room
        };
        self.ticks = cur + add;
        cur
    }
}

} // verus!
