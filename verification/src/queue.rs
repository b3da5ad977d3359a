//! The timer wake queue: the pending (deadline, waiter) entries, the
//! minimum-deadline query the comparator is programmed from, and the
//! expiration split performed on each timer interrupt.
//!
//! Entries with equal deadlines all expire on the same interrupt, and
//! nothing orders them beyond that: the waiter handle is what the
//! scheduler tells them apart by.  A deadline already in the past is a
//! pending entry like any other and expires on the next interrupt.

use vstd::prelude::*;

verus! {

use vstd::seq_lib::group_to_multiset_ensures;

/// The deadline value that stands for "no alarm": the largest
/// representable tick, which the counter never reaches in practice.
pub const NO_ALARM: u64 = u64::MAX;

/// One pending wake request: a deadline in hardware-clock ticks and the
/// scheduler's opaque notify-once handle.
#[derive(Clone, Copy, PartialEq, Eq, Structural, Debug)]
pub struct WakeEntry {
    pub deadline: u64,
    pub waiter: u64,
}

/// Holds of entries whose deadline has been reached at tick `now`.
pub open spec fn expired_by(now: u64) -> spec_fn(WakeEntry) -> bool {
    |e: WakeEntry| e.deadline <= now
}

/// Holds of entries whose deadline is still ahead at tick `now`.
pub open spec fn pending_after(now: u64) -> spec_fn(WakeEntry) -> bool {
    |e: WakeEntry| e.deadline > now
}

/// All deadlines in `s` are at or after tick `t`.
pub open spec fn none_before(s: Seq<WakeEntry>, t: u64) -> bool {
    forall|i: int| 0 <= i < s.len() ==> t <= s[i].deadline
}

/// Some entry of `s` has deadline exactly `t`.
pub open spec fn has_deadline(s: Seq<WakeEntry>, t: u64) -> bool {
    exists|i: int| 0 <= i < s.len() && s[i].deadline == t
}

/// `t` is the minimum deadline of `s`, or the "no alarm" sentinel if
/// `s` is empty.
pub open spec fn is_min_deadline(s: Seq<WakeEntry>, t: u64) -> bool {
    if s.len() == 0 {
        t == NO_ALARM
    } else {
        has_deadline(s, t) && none_before(s, t)
    }
}

/// The ordered collection of pending wake requests.
pub struct TimerQueue {
    entries: Vec<WakeEntry>,
}

impl View for TimerQueue {
    type V = Seq<WakeEntry>;

    closed spec fn view(&self) -> Seq<WakeEntry> {
        self.entries@
    }
}

impl TimerQueue {
    /// An empty queue.
    pub fn new() -> (q: Self)
        ensures
            q@ == Seq::<WakeEntry>::empty(),
    {
        let entries: Vec<WakeEntry> = Vec::new();
        assert(entries@ =~= Seq::<WakeEntry>::empty());
        TimerQueue { entries }
    }

    /// The number of pending entries.
    pub fn len(&self) -> (n: usize)
        ensures
            n == self@.len(),
    {
        self.entries.len()
    }

    /// Whether no entry is pending.
    pub fn is_empty(&self) -> (b: bool)
        ensures
            b == (self@.len() == 0),
    {
        self.entries.len() == 0
    }

    /// The minimum pending deadline, or `NO_ALARM` if the queue is
    /// empty: the value the hardware comparator should be armed with.
    pub fn min_deadline(&self) -> (t: u64)
        ensures
            is_min_deadline(self@, t),
    {
        let mut t: u64 = NO_ALARM;
        let mut i: usize = 0;
        while i < self.entries.len()
            invariant
                0 <= i <= self.entries.len(),
                is_min_deadline(self.entries@.subrange(0, i as int), t),
            decreases self.entries.len() - i,
        {
            let ghost prefix = self.entries@.subrange(0, i as int);
            let ghost t0 = t;
            let e = self.entries[i];
            if e.deadline <= t {
                t = e.deadline;
            }
            i = i + 1;
            proof {
                let longer = self.entries@.subrange(0, i as int);
                assert(longer =~= prefix.push(e));
                if e.deadline <= t0 {
                    assert(longer[longer.len() - 1] == e);
                    assert(has_deadline(longer, t));
                    assert forall|j: int| 0 <= j < longer.len() implies t <= longer[j].deadline by {
                        if j < prefix.len() {
                            assert(longer[j] == prefix[j]);
                        }
                    }
                } else {
                    assert(prefix.len() > 0);
                    let j0 = choose|j: int|
                        0 <= j < prefix.len() && prefix[j].deadline == t0;
                    assert(longer[j0] == prefix[j0]);
                    assert(has_deadline(longer, t));
                    assert forall|j: int| 0 <= j < longer.len() implies t <= longer[j].deadline by {
                        if j < prefix.len() {
                            assert(longer[j] == prefix[j]);
                        }
                    }
                }
            }
        }
        proof {
            assert(self.entries@.subrange(0, self.entries@.len() as int) =~= self.entries@);
        }
        t
    }

    /// Add a wake request.  Returns whether the new deadline is now the
    /// minimum pending deadline, i.e. whether the caller must reprogram
    /// the comparator.
    pub fn schedule_wake(&mut self, at: u64, waiter: u64) -> (was_min: bool)
        ensures
            final(self)@ == old(self)@.push(WakeEntry { deadline: at, waiter }),
            was_min == none_before(old(self)@, at),
    {
        let m = self.min_deadline();
        let was_min = at <= m;
        proof {
            let s = old(self)@;
            if s.len() > 0 {
                if at <= m {
                    assert forall|i: int| 0 <= i < s.len() implies at <= s[i].deadline by {
                        assert(m <= s[i].deadline);
                    }
                } else {
                    let j = choose|j: int| 0 <= j < s.len() && s[j].deadline == m;
                    assert(!(at <= s[j].deadline));
                }
            }
        }
        self.entries.push(WakeEntry { deadline: at, waiter });
        was_min
    }

    /// Split off every entry whose deadline has been reached.  Returns
    /// the expired entries, whose waiters the caller must notify, and
    /// the new minimum deadline among the remaining entries (`NO_ALARM`
    /// if none remain).
    ///
    /// The multiset equation says that the split loses no entry and
    /// invents none: each pending entry goes to exactly one side.
    pub fn next_expiration(&mut self, now: u64) -> (r: (Vec<WakeEntry>, u64))
        ensures
            r.0@ == old(self)@.filter(expired_by(now)),
            final(self)@ == old(self)@.filter(pending_after(now)),
            old(self)@.to_multiset() =~= r.0@.to_multiset().add(final(self)@.to_multiset()),
            forall|i: int| 0 <= i < r.0@.len() ==> r.0@[i].deadline <= now,
            forall|i: int| 0 <= i < final(self)@.len() ==> final(self)@[i].deadline > now,
            is_min_deadline(final(self)@, r.1),
    {
        broadcast use group_to_multiset_ensures;

        let ghost s = self.entries@;
        let mut expired: Vec<WakeEntry> = Vec::new();
        let mut remaining: Vec<WakeEntry> = Vec::new();
        let mut i: usize = 0;
        proof {
            reveal(Seq::filter);
            assert(s.subrange(0, 0).filter(expired_by(now)) =~= Seq::<WakeEntry>::empty());
            assert(s.subrange(0, 0).filter(pending_after(now)) =~= Seq::<WakeEntry>::empty());
        }
        while i < self.entries.len()
            invariant
                0 <= i <= self.entries.len(),
                s == self.entries@,
                expired@ == s.subrange(0, i as int).filter(expired_by(now)),
                remaining@ == s.subrange(0, i as int).filter(pending_after(now)),
                s.subrange(0, i as int).to_multiset() =~= expired@.to_multiset().add(
                    remaining@.to_multiset(),
                ),
            decreases self.entries.len() - i,
        {
            broadcast use group_to_multiset_ensures;

            let ghost prefix = s.subrange(0, i as int);
            let e = self.entries[i];
            if e.deadline <= now {
                expired.push(e);
            } else {
                remaining.push(e);
            }
            i = i + 1;
            proof {
                reveal(Seq::filter);
                let longer = s.subrange(0, i as int);
                assert(longer =~= prefix.push(e));
                assert(longer.drop_last() =~= prefix);
                assert(longer.last() == e);
            }
        }
        proof {
            assert(s.subrange(0, s.len() as int) =~= s);
        }
        self.entries = remaining;
        let next = self.min_deadline();
        proof {
            assert forall|j: int| 0 <= j < expired@.len() implies expired@[j].deadline <= now by {
                s.lemma_filter_pred(expired_by(now), j);
            }
            assert forall|j: int| 0 <= j < self@.len() implies self@[j].deadline > now by {
                s.lemma_filter_pred(pending_after(now), j);
            }
        }
        (expired, next)
    }
}

/// Law: a timer interrupt that arrives when every pending deadline has
/// been reached notifies every waiter, each exactly once.  In the terms
/// of `next_expiration`: if all of `before` has expired by `now`, the
/// split leaves nothing behind and hands every entry out.
pub proof fn lemma_all_expired_are_notified(
    before: Seq<WakeEntry>,
    notified: Seq<WakeEntry>,
    remaining: Seq<WakeEntry>,
    now: u64,
)
    requires
        before.to_multiset() =~= notified.to_multiset().add(remaining.to_multiset()),
        forall|i: int| 0 <= i < remaining.len() ==> remaining[i].deadline > now,
        forall|i: int| 0 <= i < before.len() ==> before[i].deadline <= now,
    ensures
        remaining =~= Seq::<WakeEntry>::empty(),
        notified.to_multiset() =~= before.to_multiset(),
{
    broadcast use group_to_multiset_ensures;

    if remaining.len() > 0 {
        let e = remaining[0];
        assert(remaining.contains(e));
        assert(remaining.to_multiset().count(e) > 0);
        assert(before.to_multiset().count(e) > 0);
        assert(before.contains(e));
        let i = choose|i: int| 0 <= i < before.len() && before[i] == e;
        assert(before[i].deadline <= now);
        assert(false);
    }
    assert(remaining.to_multiset().len() == 0);
    assert forall|x: WakeEntry| notified.to_multiset().count(x) == before.to_multiset().count(
        x,
    ) by {
        assert(remaining.to_multiset().count(x) <= remaining.to_multiset().len());
    }
}

} // verus!
