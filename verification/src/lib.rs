//! A software alarm multiplexer: one hardware-style alarm slot is shared
//! among arbitrarily many pending deadlines.
//!
//! The core pieces are:
//! - [`queue::DeadlineQueue`]: the pending `(deadline, waker)` entries;
//! - [`mailbox::AlarmMailbox`]: a single-slot, last-write-wins cell holding
//!   the currently intended alarm instant;
//! - [`driver::TimerDriver`]: the facade that inserts deadlines and runs the
//!   publish-then-validate rearm protocol;
//! - [`manager::AlarmManager`]: the decision logic of the perpetual watcher
//!   task that races a hardware delay against mailbox updates.
//!
//! Time is a `u64` tick count at 32768 ticks per second. `TICK_MAX` is a
//! reserved sentinel meaning "no deadline"; it is never a real instant.

use vstd::prelude::*;

pub mod clock;
pub mod mailbox;
pub mod queue;
pub mod driver;
pub mod manager;
pub mod timer_traits;

verus! {

/// Sentinel tick meaning "no deadline armed / infinite future".
/// Never a real scheduled instant.
pub const TICK_MAX: u64 = u64::MAX;

/// One hundred years of ticks at 32768 ticks per second
/// (876000 hours * 3600 s/h * 32768 ticks/s). The watcher substitutes
/// `now + CENTURY_TICKS` for the sentinel, because the delay primitive
/// cannot wait until the true maximum without overflowing internally.
pub const CENTURY_TICKS: u64 = 103_337_164_800_000;

/// Exclusive upper bound on every clock reading. Keeping readings below
/// this bound makes `reading + CENTURY_TICKS` representable and distinct
/// from the sentinel, so the century substitution never overflows.
/// A 32768 Hz counter stays below it for millions of years.
pub const TICK_LIMIT: u64 = u64::MAX - CENTURY_TICKS;

} // verus!
