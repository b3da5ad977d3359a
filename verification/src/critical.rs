//! Model of the machine-mode interrupt-enable state and the
//! critical-section guard built on it.
//!
//! The guard disables the global machine-interrupt-enable bit on entry
//! and restores it on exit.  The token returned by `acquire` records the
//! prior state in the same shape the hardware status register uses (the
//! enable bit at its architectural position), so a nested acquisition,
//! made while interrupts are already disabled, hands back a token that
//! says "disabled" and its matching `release` does not re-enable them.
//! The platform code performs the actual privileged register accesses;
//! this model carries the bits they read and write.

use vstd::prelude::*;

verus! {

/// Position of the machine-interrupt-enable bit in the saved status
/// word (bit 3 of `mstatus`).
pub const MIE_BIT: usize = 8;

/// The machine-mode interrupt bits this layer touches: the global
/// enable in the status register, the timer-interrupt source enable,
/// and the supervisor-timer pending bit the driver clears when it
/// re-arms the comparator.
pub struct MachineInterrupts {
    mie: bool,
    mtie: bool,
    stip: bool,
}

/// The token `acquire` returns for a prior global-enable state: the
/// saved status word, of which only the enable bit is meaningful.
pub open spec fn restore_token(mie: bool) -> usize {
    if mie {
        MIE_BIT
    } else {
        0
    }
}

/// The global-enable state after `release` runs with the given token:
/// re-enabled only if the token records "was enabled", otherwise left
/// as it is.
pub open spec fn released_mie(mie: bool, token: usize) -> bool {
    if token & MIE_BIT != 0 {
        true
    } else {
        mie
    }
}

impl MachineInterrupts {
    /// The global machine-interrupt-enable bit.
    pub closed spec fn mie(self) -> bool {
        self.mie
    }

    /// The machine-timer-interrupt source-enable bit.
    pub closed spec fn mtie(self) -> bool {
        self.mtie
    }

    /// The supervisor-timer pending bit.
    pub closed spec fn stip(self) -> bool {
        self.stip
    }

    /// Reset state: everything masked, nothing pending.
    pub fn new() -> (m: Self)
        ensures
            !m.mie(),
            !m.mtie(),
            !m.stip(),
    {
        MachineInterrupts { mie: false, mtie: false, stip: false }
    }

    /// Read the global enable bit.
    pub fn read_mie(&self) -> (b: bool)
        ensures
            b == self.mie(),
    {
        self.mie
    }

    /// Set the global enable bit.
    pub fn set_mie(&mut self)
        ensures
            final(self).mie(),
            final(self).mtie() == old(self).mtie(),
            final(self).stip() == old(self).stip(),
    {
        self.mie = true;
    }

    /// Clear the global enable bit.
    pub fn clear_mie(&mut self)
        ensures
            !final(self).mie(),
            final(self).mtie() == old(self).mtie(),
            final(self).stip() == old(self).stip(),
    {
        self.mie = false;
    }

    /// Enable the machine-timer interrupt source.
    pub fn set_mtimer(&mut self)
        ensures
            final(self).mtie(),
            final(self).mie() == old(self).mie(),
            final(self).stip() == old(self).stip(),
    {
        self.mtie = true;
    }

    /// Clear the supervisor-timer pending bit.
    pub fn clear_stimer(&mut self)
        ensures
            !final(self).stip(),
            final(self).mie() == old(self).mie(),
            final(self).mtie() == old(self).mtie(),
    {
        self.stip = false;
    }
}

/// Enter a critical section: record the current global-enable state in
/// a token, then mask interrupts.  Callable with interrupts already
/// masked; the token then records "disabled".
pub fn acquire(ints: &mut MachineInterrupts) -> (token: usize)
    ensures
        token == restore_token(old(ints).mie()),
        !final(ints).mie(),
        final(ints).mtie() == old(ints).mtie(),
        final(ints).stip() == old(ints).stip(),
{
    let was_enabled = ints.read_mie();
    ints.clear_mie();
    if was_enabled {
        MIE_BIT
    } else {
        0
    }
}

/// Leave a critical section: re-enable interrupts only if the token
/// says they were enabled when the matching `acquire` ran.
pub fn release(ints: &mut MachineInterrupts, token: usize)
    ensures
        final(ints).mie() == released_mie(old(ints).mie(), token),
        final(ints).mtie() == old(ints).mtie(),
        final(ints).stip() == old(ints).stip(),
{
    if token & MIE_BIT != 0 {
        ints.set_mie();
    }
}

/// Nested critical sections restore the original state: two acquires
/// followed by their two releases, innermost first, leave the global
/// enable bit exactly as it was before the first acquire.
pub proof fn lemma_nested_critical_sections(mie0: bool)
    ensures
        ({
            let outer_token = restore_token(mie0);
            // after the outer acquire the bit is off
            let inner_token = restore_token(false);
            // after the inner acquire the bit is still off
            let after_inner_release = released_mie(false, inner_token);
            let after_outer_release = released_mie(after_inner_release, outer_token);
            after_outer_release == mie0
        }),
{
    assert(8usize & 8usize != 0usize) by (bit_vector);
    assert(0usize & 8usize == 0usize) by (bit_vector);
}

/// A single acquire/release pair restores the original state.
pub proof fn lemma_acquire_release(mie0: bool)
    ensures
        released_mie(false, restore_token(mie0)) == mie0,
{
    assert(8usize & 8usize != 0usize) by (bit_vector);
    assert(0usize & 8usize == 0usize) by (bit_vector);
}

} // verus!
