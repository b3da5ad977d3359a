//! The timer driver: turns the scheduler's "wake me at tick T" requests
//! into hardware comparator programming, and turns each timer interrupt
//! into the set of expired waiters plus a re-armed (or disarmed)
//! comparator.
//!
//! All arithmetic is in hardware-clock ticks; the one conversion to the
//! scheduler's tick unit happens in `now`, with a fixed integer ratio,
//! so queue ordering is never subject to rounding.  Queue and
//! comparator are only touched between `acquire` and `release` of the
//! critical-section guard, and every path through the driver restores
//! the interrupt-enable bit it found.

use vstd::prelude::*;

verus! {

use crate::clint::Clint;
use crate::critical::{MachineInterrupts, acquire, release, lemma_acquire_release};
use crate::queue::{
    TimerQueue,
    WakeEntry,
    NO_ALARM,
    is_min_deadline,
    none_before,
    has_deadline,
    expired_by,
    pending_after,
    lemma_all_expired_are_notified,
};

/// Frequency of the core-local timer block, in hertz.
pub const CLINT_FREQ_HZ: u64 = 4_000_000;

/// The scheduler's tick frequency, in hertz: the value the tick-rate
/// configuration of the time crate fixes at build time.
pub const SCHED_TICK_HZ: u64 = 1_000_000;

/// Hardware ticks per scheduler tick (truncating division, fixed at
/// configuration time).
pub open spec fn freq_ratio() -> u64 {
    CLINT_FREQ_HZ / SCHED_TICK_HZ
}

/// Relies on `embassy_time::TICK_HZ`: with the `tick-hz-1_000_000`
/// feature this crate selects, that constant is one million.
#[verifier::external_body]
fn scheduler_tick_hz() -> (hz: u64)
    ensures
        hz == SCHED_TICK_HZ,
{
    embassy_time::TICK_HZ
}

/// The timer driver's own state: the wake queue and the cached copy of
/// the deadline the comparator was last armed with (`NO_ALARM` when the
/// driver has disarmed it).
pub struct MachineTimeDriver {
    queue: TimerQueue,
    next_alarm: u64,
}

/// What `schedule_wake` does to driver, timer block and interrupt bits:
/// the entry is appended to the pending set, and exactly when its
/// deadline is now the minimum pending deadline, the comparator is
/// reprogrammed to it (and the timer source re-enabled); otherwise the
/// comparator and the cached alarm stay as they were.  The counter and
/// the global interrupt-enable bit are left as they were found.
pub open spec fn wake_scheduled(
    d0: MachineTimeDriver,
    c0: Clint,
    i0: MachineInterrupts,
    d1: MachineTimeDriver,
    c1: Clint,
    i1: MachineInterrupts,
    at: u64,
    waiter: u64,
) -> bool {
    let was_min = none_before(d0.pending(), at);
    &&& d1.pending() == d0.pending().push(WakeEntry { deadline: at, waiter })
    &&& c1.mtime() == c0.mtime()
    &&& c1.msip() == c0.msip()
    &&& i1.mie() == i0.mie()
    &&& (was_min ==> d1.next_alarm() == at && c1.mtimecmp() == at && i1.mtie() && !i1.stip())
    &&& (!was_min ==> d1.next_alarm() == d0.next_alarm() && c1.mtimecmp() == c0.mtimecmp()
        && i1.mtie() == i0.mtie() && i1.stip() == i0.stip())
}

/// What `handle_timer_interrupt` does, with `now` the counter value at
/// entry: the pending set splits exactly into the expired entries
/// (deadline at or before `now`), which are handed out for
/// notification, and the remaining ones (deadline after `now`); the
/// comparator ends up holding the minimum remaining deadline, or the
/// "no alarm" sentinel when nothing remains; and the global
/// interrupt-enable bit is left as it was found.
pub open spec fn interrupt_handled(
    d0: MachineTimeDriver,
    c0: Clint,
    i0: MachineInterrupts,
    d1: MachineTimeDriver,
    c1: Clint,
    i1: MachineInterrupts,
    expired: Seq<WakeEntry>,
) -> bool {
    let now = c0.mtime();
    &&& expired == d0.pending().filter(expired_by(now))
    &&& d1.pending() == d0.pending().filter(pending_after(now))
    &&& d0.pending().to_multiset() == expired.to_multiset().add(d1.pending().to_multiset())
    &&& (forall|i: int| 0 <= i < expired.len() ==> expired[i].deadline <= now)
    &&& (forall|i: int| 0 <= i < d1.pending().len() ==> d1.pending()[i].deadline > now)
    &&& is_min_deadline(d1.pending(), d1.next_alarm())
    &&& c1.mtimecmp() == d1.next_alarm()
    &&& (d1.pending().len() == 0 ==> d1.next_alarm() == NO_ALARM && c1.mtimecmp() == NO_ALARM)
    &&& c1.mtime() == c0.mtime()
    &&& c1.msip() == c0.msip()
    &&& i1.mie() == i0.mie()
    &&& (d1.next_alarm() != NO_ALARM ==> i1.mtie() && !i1.stip())
    &&& (d1.next_alarm() == NO_ALARM ==> i1.mtie() == i0.mtie() && i1.stip() == i0.stip())
}

impl MachineTimeDriver {
    /// The pending wake entries.
    pub closed spec fn pending(self) -> Seq<WakeEntry> {
        self.queue@
    }

    /// The cached copy of the armed deadline.
    pub closed spec fn next_alarm(self) -> u64 {
        self.next_alarm
    }

    /// Internal consistency: while anything is pending, the cached
    /// alarm is the minimum pending deadline.
    pub open spec fn wf(self) -> bool {
        self.pending().len() > 0 ==> is_min_deadline(self.pending(), self.next_alarm())
    }

    /// Agreement with the hardware: while anything is pending, the
    /// comparator holds the cached alarm.
    pub open spec fn synced(self, clint: Clint) -> bool {
        self.pending().len() > 0 ==> clint.mtimecmp() == self.next_alarm()
    }

    /// A driver with nothing scheduled and the alarm cache at the
    /// "no alarm" sentinel.
    pub fn new() -> (d: Self)
        ensures
            d.wf(),
            d.pending() == Seq::<WakeEntry>::empty(),
            d.next_alarm() == NO_ALARM,
    {
        MachineTimeDriver { queue: TimerQueue::new(), next_alarm: NO_ALARM }
    }

    /// The cached copy of the armed deadline, for diagnostics:
    /// `NO_ALARM` while the driver has nothing armed.
    pub fn cached_alarm(&self) -> (v: u64)
        ensures
            v == self.next_alarm(),
    {
        self.next_alarm
    }

    /// Read the current hardware time.
    pub fn read_time(clint: &Clint) -> (t: u64)
        ensures
            t == clint.mtime(),
    {
        clint.read_mtime()
    }

    /// Arm the comparator: program the deadline, clear the stale
    /// supervisor-timer pending bit, and make sure the timer source is
    /// enabled.
    fn set_timer(clint: &mut Clint, ints: &mut MachineInterrupts, when_ticks: u64)
        ensures
            final(clint).mtimecmp() == when_ticks,
            final(clint).mtime() == old(clint).mtime(),
            final(clint).msip() == old(clint).msip(),
            final(ints).mtie(),
            !final(ints).stip(),
            final(ints).mie() == old(ints).mie(),
    {
        clint.write_mtimecmp(0, when_ticks);
        ints.clear_stimer();
        ints.set_mtimer();
    }

    /// One-time boot initialization: baseline the alarm cache at the
    /// current hardware time and enable the machine-timer interrupt
    /// source.  Nothing may have been scheduled yet.
    pub fn init(&mut self, clint: &Clint, ints: &mut MachineInterrupts)
        requires
            old(self).pending().len() == 0,
        ensures
            final(self).pending() == old(self).pending(),
            final(self).next_alarm() == clint.mtime(),
            final(self).wf(),
            final(self).synced(*clint),
            final(ints).mtie(),
            final(ints).mie() == old(ints).mie(),
            final(ints).stip() == old(ints).stip(),
    {
        let current_time = Self::read_time(clint);
        self.next_alarm = current_time;
        ints.set_mtimer();
    }

    /// Insert a wake request under the critical-section guard and, if
    /// its deadline is now the minimum pending one, reprogram the
    /// comparator to it.
    pub fn schedule_wake(
        &mut self,
        clint: &mut Clint,
        ints: &mut MachineInterrupts,
        at: u64,
        waiter: u64,
    )
        requires
            old(self).wf(),
            old(self).synced(*old(clint)),
        ensures
            final(self).wf(),
            final(self).synced(*final(clint)),
            wake_scheduled(
                *old(self),
                *old(clint),
                *old(ints),
                *final(self),
                *final(clint),
                *final(ints),
                at,
                waiter,
            ),
    {
        let token = acquire(ints);
        let was_min = self.queue.schedule_wake(at, waiter);
        if was_min {
            Self::set_timer(clint, ints, at);
            self.next_alarm = at;
        }
        proof {
            lemma_acquire_release(old(ints).mie());
        }
        release(ints, token);
        proof {
            let s0 = old(self).pending();
            let s1 = self.pending();
            let entry = (WakeEntry { deadline: at, waiter });
            assert(s1 == s0.push(entry));
            if none_before(s0, at) {
                assert(s1[s1.len() - 1] == entry);
                assert(has_deadline(s1, at));
                assert forall|j: int| 0 <= j < s1.len() implies at <= s1[j].deadline by {
                    if j < s0.len() {
                        assert(s1[j] == s0[j]);
                    }
                }
            } else {
                let w = choose|j: int| 0 <= j < s0.len() && !(at <= s0[j].deadline);
                assert(s0.len() > 0);
                let na = old(self).next_alarm();
                assert(is_min_deadline(s0, na));
                let j1 = choose|j: int| 0 <= j < s0.len() && s0[j].deadline == na;
                assert(s1[j1] == s0[j1]);
                assert(has_deadline(s1, na));
                assert forall|j: int| 0 <= j < s1.len() implies na <= s1[j].deadline by {
                    if j < s0.len() {
                        assert(s1[j] == s0[j]);
                    } else {
                        assert(s1[j] == entry);
                        assert(na <= s0[w].deadline);
                    }
                }
            }
        }
    }

    /// Service a timer interrupt: disarm the comparator first (so a
    /// full queue cannot re-interrupt while being drained), then, under
    /// the critical-section guard, split off everything expired at the
    /// current time and re-arm to the minimum remaining deadline, or
    /// leave the comparator disarmed if nothing remains.  The expired
    /// entries are returned for the caller to notify.
    pub fn handle_timer_interrupt(&mut self, clint: &mut Clint, ints: &mut MachineInterrupts) -> (expired: Vec<
        WakeEntry,
    >)
        requires
            old(self).wf(),
        ensures
            final(self).wf(),
            final(self).synced(*final(clint)),
            interrupt_handled(
                *old(self),
                *old(clint),
                *old(ints),
                *final(self),
                *final(clint),
                *final(ints),
                expired@,
            ),
    {
        clint.write_mtimecmp(0, NO_ALARM);
        let token = acquire(ints);
        let now = Self::read_time(clint);
        let r = self.queue.next_expiration(now);
        let expired = r.0;
        let next = r.1;
        if next != NO_ALARM {
            Self::set_timer(clint, ints, next);
            self.next_alarm = next;
        } else {
            self.next_alarm = NO_ALARM;
        }
        proof {
            lemma_acquire_release(old(ints).mie());
        }
        release(ints, token);
        expired
    }
}

/// Build and initialize the timer driver at boot: the alarm cache is
/// baselined at the current hardware time, nothing is pending, and the
/// machine-timer interrupt source is enabled.
pub fn init(clint: &Clint, ints: &mut MachineInterrupts) -> (d: MachineTimeDriver)
    ensures
        d.wf(),
        d.synced(*clint),
        d.pending() == Seq::<WakeEntry>::empty(),
        d.next_alarm() == clint.mtime(),
        final(ints).mtie(),
        final(ints).mie() == old(ints).mie(),
        final(ints).stip() == old(ints).stip(),
{
    let mut d = MachineTimeDriver::new();
    d.init(clint, ints);
    d
}

/// The timer-interrupt entry point the trap dispatcher calls: services
/// the interrupt and returns the expired entries for notification.
pub fn timer_interrupt_handler(
    driver: &mut MachineTimeDriver,
    clint: &mut Clint,
    ints: &mut MachineInterrupts,
) -> (expired: Vec<WakeEntry>)
    requires
        old(driver).wf(),
    ensures
        final(driver).wf(),
        final(driver).synced(*final(clint)),
        interrupt_handled(
            *old(driver),
            *old(clint),
            *old(ints),
            *final(driver),
            *final(clint),
            *final(ints),
            expired@,
        ),
{
    driver.handle_timer_interrupt(clint, ints)
}

/// Whether a machine-timer interrupt is pending: the counter has
/// reached the comparator.
pub fn is_timer_interrupt_pending(clint: &Clint) -> (b: bool)
    ensures
        b == (clint.mtime() >= clint.mtimecmp()),
{
    clint.read_mtime() >= clint.read_mtimecmp(0)
}

/// The current time in the scheduler's tick unit: hardware ticks
/// divided by the fixed frequency ratio, truncating.
pub fn now(clint: &Clint) -> (t: u64)
    ensures
        t == clint.mtime() / freq_ratio(),
{
    let hz = scheduler_tick_hz();
    let ratio = CLINT_FREQ_HZ / hz;
    clint.read_mtime() / ratio
}

/// Law: the conversion to scheduler ticks preserves the order of
/// hardware times, so the value `now` reports never decreases while
/// the counter moves forward, and truncation can never reorder two
/// instants.
pub proof fn lemma_scheduler_time_monotone(t1: u64, t2: u64)
    requires
        t1 <= t2,
    ensures
        t1 / freq_ratio() <= t2 / freq_ratio(),
{
    vstd::arithmetic::div_mod::lemma_div_is_ordered(t1 as int, t2 as int, freq_ratio() as int);
}

/// Law: a timer interrupt that arrives at or after every pending
/// deadline drains the queue completely — every waiter is handed out
/// for notification exactly once — and leaves the comparator and the
/// alarm cache at the "no alarm" sentinel.
pub proof fn lemma_interrupt_after_all_deadlines(
    d0: MachineTimeDriver,
    c0: Clint,
    i0: MachineInterrupts,
    d1: MachineTimeDriver,
    c1: Clint,
    i1: MachineInterrupts,
    expired: Seq<WakeEntry>,
)
    requires
        interrupt_handled(d0, c0, i0, d1, c1, i1, expired),
        forall|i: int| 0 <= i < d0.pending().len() ==> d0.pending()[i].deadline <= c0.mtime(),
    ensures
        d1.pending() =~= Seq::<WakeEntry>::empty(),
        expired.to_multiset() =~= d0.pending().to_multiset(),
        d1.next_alarm() == NO_ALARM,
        c1.mtimecmp() == NO_ALARM,
{
    lemma_all_expired_are_notified(d0.pending(), expired, d1.pending(), c0.mtime());
}

} // verus!
