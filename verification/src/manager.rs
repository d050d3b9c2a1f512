//! The decision logic of the perpetual watcher task.
//!
//! The watcher is the sole entity that actually waits on time. Each
//! iteration it drains the mailbox without blocking, then either suspends
//! until the mailbox receives its first value, or races a hardware delay
//! against the next mailbox update. The waiting itself — the `await` on
//! the delay and on the mailbox — happens in the runtime shell around this
//! crate; the decisions here say exactly which delay to issue and how each
//! outcome changes the state, so the shell's loop is a straight line:
//! perform the action, hand back the event.

use vstd::prelude::*;
use crate::CENTURY_TICKS;
use crate::TICK_MAX;
use crate::clock::TickClock;
use crate::driver::TimerDriver;
use crate::queue::min_deadline_of;

verus! {

/// What the watcher does next.
#[derive(PartialEq, Eq, Structural, Clone, Copy, Debug)]
pub enum ManagerAction {
    /// Nothing has ever been armed: suspend until the mailbox receives
    /// its first value.
    WaitForMailbox,
    /// Race a delay completing at the given instant against the next
    /// mailbox update; whichever finishes first wins.
    RaceDelay(u64),
}

/// Which side of the race finished first.
#[derive(PartialEq, Eq, Structural, Clone, Copy, Debug)]
pub enum ManagerEvent {
    /// The mailbox handed over a new target.
    MailboxValue(u64),
    /// The delay completed: treat the armed target as expired.
    DelayElapsed,
}

/// The delay instant an action races toward, if it races at all.
pub open spec fn race_target(a: ManagerAction) -> Option<u64> {
    match a {
        ManagerAction::WaitForMailbox => None,
        ManagerAction::RaceDelay(t) => Some(t),
    }
}

/// The watcher's state: the alarm target it believes is armed, `None`
/// until the mailbox delivers the first one.
pub struct AlarmManager {
    expected: Option<u64>,
}

impl AlarmManager {
    /// The target the watcher currently expects to elapse.
    pub closed spec fn expected_target(self) -> Option<u64> {
        self.expected
    }

    pub fn new() -> (m: AlarmManager)
        ensures
            m.expected_target() == None::<u64>,
    {
        AlarmManager { expected: None }
    }

    /// Drain the mailbox without blocking: adopt the unread target as the
    /// expected one, if there is any; otherwise change nothing.
    pub fn poll_mailbox<W>(&mut self, driver: &mut TimerDriver<W>)
        ensures
            final(driver).pending() == old(driver).pending(),
            final(driver).is_started() == old(driver).is_started(),
            old(driver).armed() is Some ==> final(self).expected_target() == old(driver).armed()
                && final(driver).armed() == None::<u64>,
            old(driver).armed() is None ==> *final(self) == *old(self) && *final(driver) == *old(
                driver,
            ),
    {
        if driver.alarm_signaled() {
            let v = driver.alarm_try_take();
            self.expected = v;
        }
    }

    /// Decide the next step. With no expected target yet, wait for the
    /// mailbox. With a real target, race a delay completing exactly at it.
    /// With the sentinel, substitute a century from now — far beyond any
    /// horizon, yet representable — so the delay primitive never
    /// overflows; the clock is read only in that case.
    pub fn next_action<C: TickClock>(&self, clock: &mut C) -> (a: ManagerAction)
        ensures
            self.expected_target() is None ==> a == ManagerAction::WaitForMailbox && *final(clock)
                == *old(clock),
            self.expected_target() is Some ==> a is RaceDelay,
            self.expected_target() is Some && self.expected_target().unwrap() != TICK_MAX ==> a
                == ManagerAction::RaceDelay(self.expected_target().unwrap()) && *final(clock)
                == *old(clock),
            self.expected_target() == Some(TICK_MAX) ==> {
                &&& race_target(a).unwrap() >= old(clock).reading() + CENTURY_TICKS
                &&& race_target(a).unwrap() <= final(clock).reading() + CENTURY_TICKS
                &&& race_target(a).unwrap() < TICK_MAX
            },
    {
        match self.expected {
            None => ManagerAction::WaitForMailbox,
            Some(t) => {
                if t == TICK_MAX {
                    let now = clock.now();
                    ManagerAction::RaceDelay(now + CENTURY_TICKS)
                } else {
                    ManagerAction::RaceDelay(t)
                }
            },
        }
    }

    /// Apply the race's outcome. A new mailbox value is simply adopted
    /// (the abandoned delay does no harm). An elapsed delay is a genuine
    /// expiry: re-resolve the queue and rearm through the driver, and hand
    /// back the entries to notify; the expected target is left stale — the
    /// rearm republished the mailbox, so the next poll adopts the fresh
    /// one.
    pub fn on_event<W, C: TickClock>(
        &mut self,
        driver: &mut TimerDriver<W>,
        clock: &mut C,
        event: ManagerEvent,
    ) -> (fired: Vec<(u64, W)>)
        requires
            old(driver).is_started(),
        ensures
            final(driver).is_started(),
            event matches ManagerEvent::MailboxValue(v) ==> {
                &&& final(self).expected_target() == Some(v)
                &&& *final(driver) == *old(driver)
                &&& *final(clock) == *old(clock)
                &&& fired@ == Seq::<(u64, W)>::empty()
            },
            event == ManagerEvent::DelayElapsed ==> {
                &&& *final(self) == *old(self)
                &&& old(driver).pending().to_multiset()
                    == final(driver).pending().to_multiset().add(fired@.to_multiset())
                &&& forall|i: int|
                    0 <= i < fired@.len() ==> #[trigger] fired@[i].0 <= final(clock).reading()
                &&& forall|i: int|
                    0 <= i < final(driver).pending().len()
                        ==> #[trigger] final(driver).pending()[i].0 > old(clock).reading()
                &&& final(driver).armed() == Some(min_deadline_of(final(driver).pending()))
                &&& min_deadline_of(final(driver).pending()) == TICK_MAX
                    || min_deadline_of(final(driver).pending()) > old(clock).reading()
            },
    {
        match event {
            ManagerEvent::MailboxValue(v) => {
                self.expected = Some(v);
                Vec::new()
            },
            ManagerEvent::DelayElapsed => driver.trigger_alarm(clock),
        }
    }
}

} // verus!
