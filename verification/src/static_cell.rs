//! Write-once cells for boot-time statics: a slot that can be claimed
//! and filled exactly once, in several flavours that differ only in how
//! the claim is guarded.
//!
//! All of them share one state machine: an unused slot can be claimed
//! once; once claimed it can never be claimed again; the value, once
//! stored, stays for the rest of the program.  On the single-hart
//! machine this layer targets, a flag check followed by a flag store
//! cannot interleave with another claimant, which is what the variants
//! without a real atomic exchange rely on.

use vstd::prelude::*;

verus! {

/// State of a slot that has never been touched.
pub const STATE_UNUSED: u8 = 0;

/// State of a slot that has been claimed but not yet written.
pub const STATE_INITIALIZING: u8 = 1;

/// State of a slot that holds its value.
pub const STATE_INITIALIZED: u8 = 2;

/// A write-once cell with a three-state flag: unused, claimed, full.
pub struct StaticCell<T> {
    state: u8,
    val: Option<T>,
}

impl<T> StaticCell<T> {
    /// The state flag.
    pub closed spec fn state(self) -> u8 {
        self.state
    }

    /// The stored value, if any.
    pub closed spec fn stored(self) -> Option<T> {
        self.val
    }

    /// The slot has never been claimed.
    pub open spec fn is_unused(self) -> bool {
        self.state() == STATE_UNUSED
    }

    /// The slot holds its value.
    pub open spec fn is_full(self) -> bool {
        self.state() == STATE_INITIALIZED
    }

    /// The flag and the slot agree: a value is stored exactly in the
    /// full state.
    pub open spec fn wf(self) -> bool {
        self.is_full() <==> self.stored() is Some
    }

    /// A cell that has never been claimed.
    pub fn new() -> (c: Self)
        ensures
            c.wf(),
            c.is_unused(),
    {
        StaticCell { state: STATE_UNUSED, val: None }
    }

    /// Claim the slot if nobody has before.  Returns whether this call
    /// won the claim; a cell already claimed or full is left untouched.
    pub fn try_uninit(&mut self) -> (claimed: bool)
        requires
            old(self).wf(),
        ensures
            final(self).wf(),
            claimed == old(self).is_unused(),
            claimed ==> final(self).state() == STATE_INITIALIZING && final(self).stored() is None,
            !claimed ==> *final(self) == *old(self),
    {
        if self.state != STATE_UNUSED {
            return false;
        }
        self.state = STATE_INITIALIZING;
        true
    }

    /// Claim the slot.  Callers must not claim twice: a second claim of
    /// the original aborts the program.
    pub fn uninit(&mut self)
        requires
            old(self).wf(),
            old(self).is_unused(),
        ensures
            final(self).wf(),
            final(self).state() == STATE_INITIALIZING,
            final(self).stored() is None,
    {
        let claimed = self.try_uninit();
        let _ = claimed;
    }

    /// Claim the slot and store a value in it.  Callers must not
    /// initialize twice: a second initialization of the original aborts
    /// the program.
    pub fn init(&mut self, val: T)
        requires
            old(self).wf(),
            old(self).is_unused(),
        ensures
            final(self).wf(),
            final(self).is_full(),
            final(self).stored() == Some(val),
    {
        self.uninit();
        self.val = Some(val);
        self.state = STATE_INITIALIZED;
    }

    /// Claim the slot and store the closure's result in it.  Callers
    /// must not initialize twice.
    pub fn init_with<F: FnOnce() -> T>(&mut self, val: F)
        requires
            old(self).wf(),
            old(self).is_unused(),
            call_requires(val, ()),
        ensures
            final(self).wf(),
            final(self).is_full(),
            (final(self).stored() matches Some(v) && call_ensures(val, (), v)),
    {
        self.uninit();
        let v = val();
        self.val = Some(v);
        self.state = STATE_INITIALIZED;
    }

    /// Store a value if the slot has never been claimed.  Returns
    /// whether the value was stored; a cell already claimed or full is
    /// left untouched and the value is dropped.
    pub fn try_init(&mut self, val: T) -> (stored: bool)
        requires
            old(self).wf(),
        ensures
            final(self).wf(),
            stored == old(self).is_unused(),
            stored ==> final(self).is_full() && final(self).stored() == Some(val),
            !stored ==> *final(self) == *old(self),
    {
        let claimed = self.try_uninit();
        if claimed {
            self.val = Some(val);
            self.state = STATE_INITIALIZED;
            true
        } else {
            false
        }
    }

    /// Store the closure's result if the slot has never been claimed.
    /// The closure runs only when the claim is won.
    pub fn try_init_with<F: FnOnce() -> T>(&mut self, val: F) -> (stored: bool)
        requires
            old(self).wf(),
            call_requires(val, ()),
        ensures
            final(self).wf(),
            stored == old(self).is_unused(),
            stored ==> final(self).is_full() && (final(self).stored() matches Some(v)
                && call_ensures(val, (), v)),
            !stored ==> *final(self) == *old(self),
    {
        let claimed = self.try_uninit();
        if claimed {
            let v = val();
            self.val = Some(v);
            self.state = STATE_INITIALIZED;
            true
        } else {
            false
        }
    }
}

/// A write-once cell with a single claimed flag, sound on a single
/// core, where the flag check and the flag store cannot interleave
/// with another claimant.
pub struct StaticCellSingleCore<T> {
    initialized: u8,
    val: Option<T>,
}

impl<T> StaticCellSingleCore<T> {
    /// The claimed flag.
    pub closed spec fn claimed_flag(self) -> u8 {
        self.initialized
    }

    /// The stored value, if any.
    pub closed spec fn stored(self) -> Option<T> {
        self.val
    }

    /// The slot has never been claimed.
    pub open spec fn is_unused(self) -> bool {
        self.claimed_flag() == 0
    }

    /// A value can only be stored in a claimed slot.
    pub open spec fn wf(self) -> bool {
        self.stored() is Some ==> !self.is_unused()
    }

    /// A cell that has never been claimed.
    pub fn new() -> (c: Self)
        ensures
            c.wf(),
            c.is_unused(),
            c.stored() is None,
    {
        StaticCellSingleCore { initialized: 0, val: None }
    }

    /// Claim the slot if nobody has before.
    pub fn try_uninit(&mut self) -> (claimed: bool)
        requires
            old(self).wf(),
        ensures
            final(self).wf(),
            claimed == old(self).is_unused(),
            claimed ==> !final(self).is_unused() && final(self).stored() is None,
            !claimed ==> *final(self) == *old(self),
    {
        if self.initialized != 0 {
            return false;
        }
        self.initialized = 1;
        true
    }

    /// Claim the slot.  Callers must not claim twice: a second claim of
    /// the original aborts the program.
    pub fn uninit(&mut self)
        requires
            old(self).wf(),
            old(self).is_unused(),
        ensures
            final(self).wf(),
            !final(self).is_unused(),
            final(self).stored() is None,
    {
        let claimed = self.try_uninit();
        let _ = claimed;
    }

    /// Claim the slot and store a value in it.  Callers must not
    /// initialize twice.
    pub fn init(&mut self, val: T)
        requires
            old(self).wf(),
            old(self).is_unused(),
        ensures
            final(self).wf(),
            !final(self).is_unused(),
            final(self).stored() == Some(val),
    {
        self.uninit();
        self.val = Some(val);
    }
}

/// A write-once cell guarded by a flag used as a lock, for claimants
/// that must not use an atomic exchange.  Between calls the lock is
/// free; on a single hart the locked section cannot interleave, so the
/// double-checks inside it cannot fail and the retry loop of a
/// contended run collapses to one pass.
pub struct StaticCellSpinlock<T> {
    lock_flag: u8,
    initialized: u8,
    val: Option<T>,
}

impl<T> StaticCellSpinlock<T> {
    /// The lock flag; free between calls.
    pub closed spec fn lock_flag(self) -> u8 {
        self.lock_flag
    }

    /// The claimed flag.
    pub closed spec fn claimed_flag(self) -> u8 {
        self.initialized
    }

    /// The stored value, if any.
    pub closed spec fn stored(self) -> Option<T> {
        self.val
    }

    /// The slot has never been claimed.
    pub open spec fn is_unused(self) -> bool {
        self.claimed_flag() == 0
    }

    /// The lock is free and a value can only be stored in a claimed
    /// slot.
    pub open spec fn wf(self) -> bool {
        self.lock_flag() == 0 && (self.stored() is Some ==> !self.is_unused())
    }

    /// A cell that has never been claimed, with the lock free.
    pub fn new() -> (c: Self)
        ensures
            c.wf(),
            c.is_unused(),
            c.stored() is None,
    {
        StaticCellSpinlock { lock_flag: 0, initialized: 0, val: None }
    }

    /// Claim the slot if nobody has before, taking and releasing the
    /// lock around the claim.
    pub fn try_uninit(&mut self) -> (claimed: bool)
        requires
            old(self).wf(),
        ensures
            final(self).wf(),
            claimed == old(self).is_unused(),
            claimed ==> !final(self).is_unused() && final(self).stored() is None,
            !claimed ==> *final(self) == *old(self),
    {
        if self.initialized != 0 {
            return false;
        }
        // take the lock; on one hart nobody else can hold it here
        self.lock_flag = 1;
        // double-check under the lock, then claim
        if self.lock_flag == 1 && self.initialized == 0 {
            self.initialized = 1;
            self.lock_flag = 0;
            true
        } else {
            self.lock_flag = 0;
            false
        }
    }

    /// Claim the slot.  Callers must not claim twice: a second claim of
    /// the original aborts the program.
    pub fn uninit(&mut self)
        requires
            old(self).wf(),
            old(self).is_unused(),
        ensures
            final(self).wf(),
            !final(self).is_unused(),
            final(self).stored() is None,
    {
        let claimed = self.try_uninit();
        let _ = claimed;
    }

    /// Claim the slot and store a value in it.  Callers must not
    /// initialize twice.
    pub fn init(&mut self, val: T)
        requires
            old(self).wf(),
            old(self).is_unused(),
        ensures
            final(self).wf(),
            !final(self).is_unused(),
            final(self).stored() == Some(val),
    {
        self.uninit();
        self.val = Some(val);
    }
}

/// A cell holding a value from the start, handed out exactly once.
pub struct ConstStaticCell<T> {
    taken: u8,
    val: Option<T>,
}

impl<T> ConstStaticCell<T> {
    /// Whether the value has been taken.
    pub closed spec fn is_taken(self) -> bool {
        self.taken != 0
    }

    /// The value still held, if any.
    pub closed spec fn stored(self) -> Option<T> {
        self.val
    }

    /// The value is present exactly until it is taken.
    pub open spec fn wf(self) -> bool {
        self.is_taken() <==> self.stored() is None
    }

    /// A cell holding the value, not yet taken.
    pub fn new(value: T) -> (c: Self)
        ensures
            c.wf(),
            !c.is_taken(),
            c.stored() == Some(value),
    {
        ConstStaticCell { taken: 0, val: Some(value) }
    }

    /// Take the value out if nobody has before.
    pub fn try_take(&mut self) -> (r: Option<T>)
        requires
            old(self).wf(),
        ensures
            final(self).wf(),
            final(self).is_taken(),
            !old(self).is_taken() ==> r == old(self).stored() && r is Some,
            old(self).is_taken() ==> r is None && *final(self) == *old(self),
    {
        if self.taken != 0 {
            return None;
        }
        self.taken = 1;
        self.val.take()
    }

    /// Take the value out.  Callers must not take twice: a second take
    /// of the original aborts the program.
    pub fn take(&mut self) -> (v: T)
        requires
            old(self).wf(),
            !old(self).is_taken(),
        ensures
            final(self).wf(),
            final(self).is_taken(),
            old(self).stored() == Some(v),
    {
        let r = self.try_take();
        r.unwrap()
    }
}

} // verus!
