//! Model of the core-local interrupt/timer block: a monotonic 64-bit
//! counter, one comparator per hart (this design uses hart 0 only), and
//! the machine-software-interrupt pending bit.
//!
//! The real block is a memory-mapped peripheral; the platform code owns
//! those volatile accesses.  This model keeps the registers as plain
//! values so that the timer driver's programming of the comparator can
//! be verified, and so that the counter can only move forward, which is
//! what the hardware guarantees of `mtime`.

use vstd::prelude::*;

verus! {

/// The core-local timer block, reduced to the registers this layer
/// reads and writes.
pub struct Clint {
    mtime: u64,
    mtimecmp: u64,
    msip: bool,
}

impl Clint {
    /// The counter value.
    pub closed spec fn mtime(self) -> u64 {
        self.mtime
    }

    /// The hart-0 comparator value.
    pub closed spec fn mtimecmp(self) -> u64 {
        self.mtimecmp
    }

    /// The hart-0 software-interrupt pending bit.
    pub closed spec fn msip(self) -> bool {
        self.msip
    }

    /// A fresh block in its reset state: counter and comparator at zero,
    /// no software interrupt pending.
    pub fn new() -> (c: Self)
        ensures
            c.mtime() == 0,
            c.mtimecmp() == 0,
            !c.msip(),
    {
        Clint { mtime: 0, mtimecmp: 0, msip: false }
    }

    /// Read the counter.  No side effect; successive reads never
    /// decrease, because every mutation of the model moves the counter
    /// forward or leaves it alone.
    pub fn read_mtime(&self) -> (t: u64)
        ensures
            t == self.mtime(),
    {
        self.mtime
    }

    /// Move the counter forward, as the hardware does on its own.
    pub fn advance(&mut self, delta: u64)
        requires
            old(self).mtime() + delta <= u64::MAX,
        ensures
            final(self).mtime() == old(self).mtime() + delta,
            final(self).mtime() >= old(self).mtime(),
            final(self).mtimecmp() == old(self).mtimecmp(),
            final(self).msip() == old(self).msip(),
    {
        self.mtime = self.mtime + delta;
    }

    /// Set the counter.  The model only moves it forward: a counter that
    /// jumped backwards would break the monotonicity that callers of
    /// `read_mtime` rely on.
    pub fn write_mtime(&mut self, val: u64)
        requires
            val >= old(self).mtime(),
        ensures
            final(self).mtime() == val,
            final(self).mtime() >= old(self).mtime(),
            final(self).mtimecmp() == old(self).mtimecmp(),
            final(self).msip() == old(self).msip(),
    {
        self.mtime = val;
    }

    /// Read the comparator of the given hart.  This design is
    /// single-hart: only hart 0 exists.
    pub fn read_mtimecmp(&self, hart_idx: usize) -> (v: u64)
        requires
            hart_idx == 0,
        ensures
            v == self.mtimecmp(),
    {
        let _ = hart_idx;
        self.mtimecmp
    }

    /// Program the comparator of the given hart.  Writing `u64::MAX`
    /// disarms it: the counter then never reaches the comparator in
    /// practice.
    pub fn write_mtimecmp(&mut self, hart_idx: usize, val: u64)
        requires
            hart_idx == 0,
        ensures
            final(self).mtimecmp() == val,
            final(self).mtime() == old(self).mtime(),
            final(self).msip() == old(self).msip(),
    {
        let _ = hart_idx;
        self.mtimecmp = val;
    }

    /// Read the software-interrupt pending bit of the given hart.
    pub fn read_msip(&self, hart_idx: usize) -> (b: bool)
        requires
            hart_idx == 0,
        ensures
            b == self.msip(),
    {
        let _ = hart_idx;
        self.msip
    }

    /// Raise the software-interrupt pending bit of the given hart.
    pub fn set_msip(&mut self, hart_idx: usize)
        requires
            hart_idx == 0,
        ensures
            final(self).msip(),
            final(self).mtime() == old(self).mtime(),
            final(self).mtimecmp() == old(self).mtimecmp(),
    {
        let _ = hart_idx;
        self.msip = true;
    }

    /// Clear the software-interrupt pending bit of the given hart.
    pub fn clear_msip(&mut self, hart_idx: usize)
        requires
            hart_idx == 0,
        ensures
            !final(self).msip(),
            final(self).mtime() == old(self).mtime(),
            final(self).mtimecmp() == old(self).mtimecmp(),
    {
        let _ = hart_idx;
        self.msip = false;
    }
}

} // verus!
