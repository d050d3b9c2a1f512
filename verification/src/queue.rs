//! The ordered collection of pending `(deadline, waker)` entries.
//!
//! [`DeadlineQueue`] holds every wake request that has been scheduled and
//! not yet fired; it never silently drops an entry. It is generic in the
//! waker handle `W`, which it only stores and hands back. Entries whose
//! deadline has elapsed are drained with [`DeadlineQueue::pop_due`]; the
//! caller notifies their wakers.

use vstd::prelude::*;
use crate::TICK_MAX;

verus! {

/// The least deadline in `s`, or `TICK_MAX` when `s` is empty.
pub open spec fn min_deadline_of<W>(s: Seq<(u64, W)>) -> u64
    decreases s.len(),
{
    if s.len() == 0 {
        TICK_MAX
    } else {
        let m = min_deadline_of(s.drop_last());
        if s.last().0 < m {
            s.last().0
        } else {
            m
        }
    }
}

/// The entries of `s` whose deadline is at most `now`, in order.
pub open spec fn due_entries<W>(s: Seq<(u64, W)>, now: u64) -> Seq<(u64, W)>
    decreases s.len(),
{
    if s.len() == 0 {
        Seq::empty()
    } else {
        let rest = due_entries(s.drop_last(), now);
        if s.last().0 <= now {
            rest.push(s.last())
        } else {
            rest
        }
    }
}

/// The entries of `s` whose deadline is after `now`, in order.
pub open spec fn live_entries<W>(s: Seq<(u64, W)>, now: u64) -> Seq<(u64, W)>
    decreases s.len(),
{
    if s.len() == 0 {
        Seq::empty()
    } else {
        let rest = live_entries(s.drop_last(), now);
        if s.last().0 > now {
            rest.push(s.last())
        } else {
            rest
        }
    }
}

/// The minimum is a lower bound on every deadline in the queue.
pub proof fn lemma_min_is_lower_bound<W>(s: Seq<(u64, W)>)
    ensures
        forall|i: int| 0 <= i < s.len() ==> min_deadline_of(s) <= #[trigger] s[i].0,
    decreases s.len(),
{
    if s.len() > 0 {
        lemma_min_is_lower_bound(s.drop_last());
        assert forall|i: int| 0 <= i < s.len() implies min_deadline_of(s) <= #[trigger] s[i].0 by {
            if i < s.len() - 1 {
                assert(s[i] == s.drop_last()[i]);
            }
        }
    }
}

/// A non-empty queue attains its minimum: some entry's deadline equals it.
pub proof fn lemma_min_is_reached<W>(s: Seq<(u64, W)>)
    requires
        s.len() > 0,
    ensures
        exists|i: int| 0 <= i < s.len() && #[trigger] s[i].0 == min_deadline_of(s),
    decreases s.len(),
{
    let m = min_deadline_of(s.drop_last());
    if s.last().0 < m {
        assert(s[s.len() - 1].0 == min_deadline_of(s));
    } else if s.len() == 1 {
        assert(s[0].0 == min_deadline_of(s));
    } else {
        lemma_min_is_reached(s.drop_last());
        let i = choose|i: int|
            0 <= i < s.drop_last().len() && #[trigger] s.drop_last()[i].0 == m;
        assert(s[i] == s.drop_last()[i]);
        assert(s[i].0 == min_deadline_of(s));
    }
}

/// The queue holds a real (non-sentinel) deadline exactly when its minimum
/// is below the sentinel: the alarm target derived from the minimum is
/// never the sentinel while a real deadline is pending.
pub proof fn lemma_min_below_sentinel<W>(s: Seq<(u64, W)>)
    ensures
        (exists|i: int| 0 <= i < s.len() && #[trigger] s[i].0 < TICK_MAX) <==> min_deadline_of(
            s,
        ) < TICK_MAX,
{
    lemma_min_is_lower_bound(s);
    if min_deadline_of(s) < TICK_MAX {
        assert(s.len() > 0);
        lemma_min_is_reached(s);
    }
}

proof fn lemma_partition_count<W>(s: Seq<(u64, W)>, now: u64, x: (u64, W))
    ensures
        live_entries(s, now).to_multiset().count(x) + due_entries(s, now).to_multiset().count(x)
            == s.to_multiset().count(x),
    decreases s.len(),
{
    broadcast use vstd::seq_lib::group_to_multiset_ensures;
    broadcast use vstd::multiset::group_multiset_axioms;

    if s.len() == 0 {
        assert(!s.contains(x));
        assert(!live_entries(s, now).contains(x));
        assert(!due_entries(s, now).contains(x));
    } else {
        lemma_partition_count(s.drop_last(), now, x);
        assert(s == s.drop_last().push(s.last()));
    }
}

/// Splitting a queue at `now` neither loses nor duplicates entries:
/// the live part and the due part together are exactly the original
/// (as multisets), their lengths add up, every due entry has elapsed
/// and every live entry is still in the future.
pub proof fn lemma_partition<W>(s: Seq<(u64, W)>, now: u64)
    ensures
        live_entries(s, now).to_multiset().add(due_entries(s, now).to_multiset())
            == s.to_multiset(),
        live_entries(s, now).len() + due_entries(s, now).len() == s.len(),
        forall|i: int|
            0 <= i < live_entries(s, now).len() ==> #[trigger] live_entries(s, now)[i].0 > now,
        forall|i: int|
            0 <= i < due_entries(s, now).len() ==> #[trigger] due_entries(s, now)[i].0 <= now,
    decreases s.len(),
{
    broadcast use vstd::multiset::group_multiset_axioms;

    if s.len() > 0 {
        lemma_partition(s.drop_last(), now);
    }
    assert forall|x: (u64, W)|
        #[trigger] live_entries(s, now).to_multiset().add(
            due_entries(s, now).to_multiset(),
        ).count(x) == s.to_multiset().count(x) by {
        lemma_partition_count(s, now, x);
    }
    assert(live_entries(s, now).to_multiset().add(due_entries(s, now).to_multiset())
        =~= s.to_multiset());
}

/// While the queue is non-empty and its minimum has elapsed, draining the
/// due entries strictly shrinks it: the retry loop in the driver makes
/// progress.
pub proof fn lemma_due_nonempty<W>(s: Seq<(u64, W)>, now: u64)
    requires
        s.len() > 0,
        min_deadline_of(s) <= now,
    ensures
        due_entries(s, now).len() > 0,
        live_entries(s, now).len() < s.len(),
    decreases s.len(),
{
    lemma_partition(s, now);
    if s.last().0 > now {
        assert(min_deadline_of(s.drop_last()) <= now);
        assert(s.drop_last().len() > 0) by {
            if s.len() == 1 {
                assert(min_deadline_of(s.drop_last()) == TICK_MAX);
            }
        }
        lemma_due_nonempty(s.drop_last(), now);
    }
}

/// The pending wake requests: exactly those scheduled and not yet fired.
pub struct DeadlineQueue<W> {
    entries: Vec<(u64, W)>,
}

impl<W> View for DeadlineQueue<W> {
    type V = Seq<(u64, W)>;

    closed spec fn view(&self) -> Seq<(u64, W)> {
        self.entries@
    }
}

impl<W> DeadlineQueue<W> {
    pub fn new() -> (q: DeadlineQueue<W>)
        ensures
            q@ == Seq::<(u64, W)>::empty(),
    {
        DeadlineQueue { entries: Vec::new() }
    }

    pub fn len(&self) -> (n: usize)
        ensures
            n == self@.len(),
    {
        self.entries.len()
    }

    /// The next still-pending instant: the least deadline in the queue,
    /// or the sentinel when the queue is empty.
    pub fn min_deadline(&self) -> (r: u64)
        ensures
            r == min_deadline_of(self@),
    {
        let mut m: u64 = TICK_MAX;
        let mut i: usize = 0;
        while i < self.entries.len()
            invariant
                i <= self.entries.len(),
                m == min_deadline_of(self@.take(i as int)),
            decreases self.entries.len() - i,
        {
            let d = self.entries[i].0;
            proof {
                assert(self@.take(i + 1).drop_last() =~= self@.take(i as int));
                assert(self@.take(i + 1).last() == self@[i as int]);
            }
            if d < m {
                m = d;
            }
            i = i + 1;
        }
        proof {
            assert(self@.take(self@.len() as int) =~= self@);
        }
        m
    }

    /// Add one entry. Reports whether the new entry becomes (or ties with)
    /// the queue's minimum, in which case the alarm must be rearmed.
    pub fn schedule_wake(&mut self, at: u64, waker: W) -> (became_min: bool)
        ensures
            final(self)@ == old(self)@.push((at, waker)),
            became_min == (at <= min_deadline_of(old(self)@)),
    {
        let m = self.min_deadline();
        self.entries.push((at, waker));
        at <= m
    }

    /// Remove and return every entry whose deadline is at most `now`, in
    /// insertion order; the still-future entries remain. The caller fires
    /// the returned entries' wakers.
    pub fn pop_due(&mut self, now: u64) -> (due: Vec<(u64, W)>)
        ensures
            final(self)@ == live_entries(old(self)@, now),
            due@ == due_entries(old(self)@, now),
    {
        let ghost s = self@;
        let mut due: Vec<(u64, W)> = Vec::new();
        let mut kept: Vec<(u64, W)> = Vec::new();
        let mut i: usize = 0;
        let n = self.entries.len();
        while i < n
            invariant
                i <= n,
                n == s.len(),
                self.entries@ == s.skip(i as int),
                due@ == due_entries(s.take(i as int), now),
                kept@ == live_entries(s.take(i as int), now),
            decreases n - i,
        {
            proof {
                assert(s.take(i + 1).drop_last() =~= s.take(i as int));
                assert(s.take(i + 1).last() == s[i as int]);
                assert(s.skip(i as int)[0] == s[i as int]);
            }
            let e = self.entries.remove(0);
            proof {
                assert(self.entries@ =~= s.skip(i + 1));
            }
            if e.0 <= now {
                due.push(e);
            } else {
                kept.push(e);
            }
            i = i + 1;
        }
        proof {
            assert(s.take(s.len() as int) =~= s);
        }
        self.entries = kept;
        due
    }
}

} // verus!
