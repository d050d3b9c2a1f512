//! The facade that owns the deadline queue and the alarm mailbox.
//!
//! `schedule_wake` inserts a deadline and, when the queue's minimum
//! changes, runs the rearm loop; `set_alarm` is the two-phase
//! publish-then-validate arm protocol; `trigger_alarm` re-resolves the
//! queue on expiry and rearms. The driver is generic in the waker handle
//! `W`: instead of invoking wakers itself it returns the fired entries,
//! and the caller notifies them.
//!
//! The driver performs no waiting of its own: every operation is a short,
//! bounded computation, so a caller may wrap it in a critical section and
//! invoke it from interrupt context.

use vstd::prelude::*;
use crate::TICK_MAX;
use crate::clock::TickClock;
use crate::mailbox::AlarmMailbox;
use crate::queue::DeadlineQueue;
use crate::queue::due_entries;
use crate::queue::lemma_due_nonempty;
use crate::queue::lemma_partition;
use crate::queue::min_deadline_of;

verus! {

/// Law: a rearm step neither loses nor duplicates wake requests. Whenever
/// the pending entries before a step equal the pending entries after it
/// plus the fired ones — which `schedule_wake` and `trigger_alarm` ensure —
/// then each entry's occurrences split exactly between "still pending" and
/// "fired", and an entry was scheduled if and only if it is still pending
/// or has fired.
pub proof fn lemma_wake_conservation<W>(
    pend_before: Seq<(u64, W)>,
    pend_after: Seq<(u64, W)>,
    fired: Seq<(u64, W)>,
    e: (u64, W),
)
    requires
        pend_before.to_multiset() == pend_after.to_multiset().add(fired.to_multiset()),
    ensures
        pend_after.to_multiset().count(e) + fired.to_multiset().count(e)
            == pend_before.to_multiset().count(e),
        pend_before.contains(e) <==> pend_after.contains(e) || fired.contains(e),
{
    broadcast use vstd::seq_lib::group_to_multiset_ensures;
    broadcast use vstd::multiset::group_multiset_axioms;

    assert(pend_before.to_multiset().count(e) > 0 <==> pend_before.contains(e));
    assert(pend_after.to_multiset().count(e) > 0 <==> pend_after.contains(e));
    assert(fired.to_multiset().count(e) > 0 <==> fired.contains(e));
}

/// Law: once the queue holds nothing (more generally, nothing real), a
/// driver whose mailbox reflects the queue's minimum — which every rearm
/// re-establishes — has settled to the sentinel: the watcher then parks on
/// the century-scale fallback instead of polling.
pub proof fn lemma_empty_settles_to_sentinel<W>(d: TimerDriver<W>)
    requires
        d.pending().len() == 0,
        d.armed() == Some(min_deadline_of(d.pending())),
    ensures
        d.armed() == Some(TICK_MAX),
{
}

/// The deadline multiplexer: every pending wake request, plus the
/// single-slot mailbox telling the watcher which instant to wait for.
///
/// Constructed unstarted; [`TimerDriver::initialize`] transitions it to
/// started exactly once, and every other operation demands a started
/// driver.
pub struct TimerDriver<W> {
    queue: DeadlineQueue<W>,
    mailbox: AlarmMailbox,
    started: bool,
}

impl<W> TimerDriver<W> {
    /// The scheduled-and-not-yet-fired entries, in insertion order.
    pub closed spec fn pending(self) -> Seq<(u64, W)> {
        self.queue@
    }

    /// The unread alarm target in the mailbox, if any.
    pub closed spec fn armed(self) -> Option<u64> {
        self.mailbox.slot()
    }

    /// Whether `initialize` has run.
    pub closed spec fn is_started(self) -> bool {
        self.started
    }

    /// A fresh, unstarted driver: nothing pending, nothing armed.
    pub fn new() -> (d: TimerDriver<W>)
        ensures
            !d.is_started(),
            d.pending() == Seq::<(u64, W)>::empty(),
            d.armed() == None::<u64>,
    {
        TimerDriver { queue: DeadlineQueue::new(), mailbox: AlarmMailbox::new(), started: false }
    }

    /// Start the driver: disarm the alarm (publish the sentinel) and
    /// accept work from now on. Must run exactly once, before any other
    /// entry point; a second call is a caller error, excluded here.
    pub fn initialize(&mut self)
        requires
            !old(self).is_started(),
        ensures
            final(self).is_started(),
            final(self).pending() == old(self).pending(),
            final(self).armed() == Some(TICK_MAX),
    {
        self.mailbox.signal(TICK_MAX);
        self.started = true;
    }

    /// The current tick count, read from the clock. Non-blocking; safe
    /// to call anywhere once the driver is started.
    pub fn now<C: TickClock>(&self, clock: &mut C) -> (r: u64)
        requires
            self.is_started(),
        ensures
            old(clock).reading() <= r,
            r <= final(clock).reading(),
            final(clock).reading() < crate::TICK_LIMIT,
    {
        clock.now()
    }

    /// Whether the mailbox holds an unread alarm target.
    pub fn alarm_signaled(&self) -> (r: bool)
        ensures
            r <==> self.armed() is Some,
    {
        self.mailbox.signaled()
    }

    /// Take the unread alarm target out of the mailbox, if any.
    pub fn alarm_try_take(&mut self) -> (r: Option<u64>)
        ensures
            r == old(self).armed(),
            final(self).armed() == None::<u64>,
            final(self).pending() == old(self).pending(),
            final(self).is_started() == old(self).is_started(),
    {
        self.mailbox.try_take()
    }

    /// Two-phase arm: publish `timestamp` to the mailbox unconditionally,
    /// then re-read the clock; if the target has already elapsed, publish
    /// the sentinel instead and report failure, so the caller retries with
    /// the next-soonest deadline. The sentinel itself always arms, since
    /// readings never reach it.
    pub fn set_alarm<C: TickClock>(&mut self, timestamp: u64, clock: &mut C) -> (ok: bool)
        requires
            old(self).is_started(),
        ensures
            final(self).is_started(),
            final(self).pending() == old(self).pending(),
            old(clock).reading() <= final(clock).reading(),
            ok ==> final(self).armed() == Some(timestamp) && timestamp > old(clock).reading(),
            !ok ==> final(self).armed() == Some(TICK_MAX) && timestamp <= final(clock).reading(),
            timestamp == TICK_MAX ==> ok,
    {
        self.mailbox.signal(timestamp);
        let now = clock.now();
        if timestamp <= now {
            self.mailbox.signal(TICK_MAX);
            false
        } else {
            true
        }
    }

    /// Expiry handling: drain every elapsed entry, then arm for the
    /// remaining minimum, retrying (and draining again) as long as the
    /// chosen target has itself elapsed. Terminates because every failed
    /// arm strictly shrinks the queue.
    ///
    /// On return the mailbox holds exactly the minimum of the remaining
    /// queue (the sentinel when nothing real is pending), that target had
    /// not elapsed when it was validated, no entry is lost or duplicated,
    /// every fired entry's deadline has passed, and every remaining
    /// entry's deadline lies after the reading at entry.
    pub fn trigger_alarm<C: TickClock>(&mut self, clock: &mut C) -> (fired: Vec<(u64, W)>)
        requires
            old(self).is_started(),
        ensures
            final(self).is_started(),
            old(self).pending().to_multiset() == final(self).pending().to_multiset().add(
                fired@.to_multiset(),
            ),
            forall|i: int| 0 <= i < fired@.len() ==> #[trigger] fired@[i].0 <= final(clock).reading(),
            forall|i: int|
                0 <= i < final(self).pending().len() ==> #[trigger] final(self).pending()[i].0
                    > old(clock).reading(),
            final(self).armed() == Some(min_deadline_of(final(self).pending())),
            min_deadline_of(final(self).pending()) == TICK_MAX || min_deadline_of(
                final(self).pending(),
            ) > old(clock).reading(),
            old(clock).reading() <= final(clock).reading(),
    {
        broadcast use vstd::seq_lib::group_to_multiset_ensures;
        broadcast use vstd::seq_lib::lemma_multiset_commutative;
        broadcast use vstd::multiset::group_multiset_axioms;

        let mut fired: Vec<(u64, W)> = Vec::new();
        let now0 = clock.now();
        proof {
            lemma_partition(self.pending(), now0);
        }
        let mut due = self.queue.pop_due(now0);
        fired.append(&mut due);
        proof {
            assert(fired@ =~= due_entries(old(self).pending(), now0));
            assert(old(self).pending().to_multiset() =~= self.pending().to_multiset().add(
                fired@.to_multiset(),
            ));
        }
        let mut next = self.queue.min_deadline();
        loop
            invariant
                self.is_started(),
                next == min_deadline_of(self.pending()),
                old(self).pending().to_multiset() == self.pending().to_multiset().add(
                    fired@.to_multiset(),
                ),
                forall|i: int| 0 <= i < fired@.len() ==> #[trigger] fired@[i].0 <= clock.reading(),
                forall|i: int|
                    0 <= i < self.pending().len() ==> #[trigger] self.pending()[i].0 > old(
                        clock,
                    ).reading(),
                old(clock).reading() <= clock.reading(),
            ensures
                self.armed() == Some(min_deadline_of(self.pending())),
                min_deadline_of(self.pending()) == TICK_MAX || min_deadline_of(self.pending())
                    > old(clock).reading(),
            decreases self.pending().len(),
        {
            let ok = self.set_alarm(next, clock);
            if ok {
                break;
            }
            let ghost pend_before = self.pending();
            let ghost fired_before = fired@;
            let now = clock.now();
            proof {
                assert(pend_before.len() > 0) by {
                    if pend_before.len() == 0 {
                        assert(min_deadline_of(pend_before) == TICK_MAX);
                    }
                }
                lemma_due_nonempty(pend_before, now);
                lemma_partition(pend_before, now);
            }
            let mut due2 = self.queue.pop_due(now);
            fired.append(&mut due2);
            next = self.queue.min_deadline();
            proof {
                let due_s = due_entries(pend_before, now);
                assert(fired@ == fired_before + due_s);
                vstd::seq_lib::lemma_multiset_commutative(fired_before, due_s);
                assert((fired_before + due_s).to_multiset() =~= fired_before.to_multiset().add(
                    due_s.to_multiset(),
                ));
                assert(old(self).pending().to_multiset() =~= self.pending().to_multiset().add(
                    fired@.to_multiset(),
                ));
            }
        }
        fired
    }

    /// Insert `(at, waker)`. If the new entry becomes (or ties) the
    /// queue's minimum, re-resolve and rearm exactly as on expiry — in
    /// particular, an already-elapsed deadline is drained and returned
    /// immediately rather than left to starve. Entries are never lost or
    /// duplicated, and the untouched-minimum case changes nothing else.
    pub fn schedule_wake<C: TickClock>(&mut self, at: u64, waker: W, clock: &mut C) -> (fired: Vec<
        (u64, W),
    >)
        requires
            old(self).is_started(),
        ensures
            final(self).is_started(),
            old(self).pending().to_multiset().insert((at, waker))
                == final(self).pending().to_multiset().add(fired@.to_multiset()),
            at > min_deadline_of(old(self).pending()) ==> {
                &&& final(self).pending() == old(self).pending().push((at, waker))
                &&& fired@ == Seq::<(u64, W)>::empty()
                &&& final(self).armed() == old(self).armed()
                &&& *final(clock) == *old(clock)
            },
            at <= min_deadline_of(old(self).pending()) ==> {
                &&& final(self).armed() == Some(min_deadline_of(final(self).pending()))
                &&& min_deadline_of(final(self).pending()) == TICK_MAX
                    || min_deadline_of(final(self).pending()) > old(clock).reading()
                &&& forall|i: int|
                    0 <= i < fired@.len() ==> #[trigger] fired@[i].0 <= final(clock).reading()
                &&& forall|i: int|
                    0 <= i < final(self).pending().len()
                        ==> #[trigger] final(self).pending()[i].0 > old(clock).reading()
            },
            at <= min_deadline_of(old(self).pending()) && at <= old(clock).reading()
                ==> fired@.to_multiset().count((at, waker)) > 0,
    {
        broadcast use vstd::seq_lib::group_to_multiset_ensures;
        broadcast use vstd::multiset::group_multiset_axioms;

        let became_min = self.queue.schedule_wake(at, waker);
        if became_min {
            let ghost pend_mid = self.pending();
            let fired = self.trigger_alarm(clock);
            proof {
                if at <= old(clock).reading() {
                    assert(pend_mid.to_multiset().count((at, waker)) > 0);
                    if self.pending().to_multiset().count((at, waker)) > 0 {
                        assert(self.pending().contains((at, waker)));
                        let i = choose|i: int|
                            0 <= i < self.pending().len() && self.pending()[i] == (at, waker);
                        assert(self.pending()[i].0 > old(clock).reading());
                        assert(false);
                    }
                }
            }
            fired
        } else {
            Vec::new()
        }
    }
}

} // verus!
