//! A write-once cell: empty until its first `call_once`, then holding
//! one value for the rest of its life.
//!
//! This is the simplest of the one-shot-initialization primitives: a
//! single flag and the slot.  On the single-hart machine this layer
//! targets, the flag check and the store cannot interleave with another
//! writer, which is what makes the pattern sound there.

use vstd::prelude::*;

verus! {

/// A cell that is initialized at most once and read thereafter.
pub struct SimpleOnce<T> {
    initialized: bool,
    value: Option<T>,
}

impl<T> SimpleOnce<T> {
    /// Whether the cell has been initialized.
    pub closed spec fn is_initialized(self) -> bool {
        self.initialized
    }

    /// The stored value, if any.
    pub closed spec fn stored(self) -> Option<T> {
        self.value
    }

    /// The flag and the slot agree: a value is stored exactly when the
    /// cell says it is initialized.
    pub open spec fn wf(self) -> bool {
        self.is_initialized() <==> self.stored() is Some
    }

    /// An empty cell.
    pub fn new() -> (c: Self)
        ensures
            c.wf(),
            !c.is_initialized(),
    {
        SimpleOnce { initialized: false, value: None }
    }

    /// Initialize the cell with the closure's result, unless it already
    /// holds a value; an already-full cell is left untouched and the
    /// closure is not run.
    pub fn call_once<F: FnOnce() -> T>(&mut self, f: F)
        requires
            old(self).wf(),
            call_requires(f, ()),
        ensures
            final(self).wf(),
            final(self).is_initialized(),
            old(self).is_initialized() ==> *final(self) == *old(self),
            !old(self).is_initialized() ==> (final(self).stored() matches Some(v)
                && call_ensures(f, (), v)),
    {
        if !self.initialized {
            let val = f();
            self.value = Some(val);
            self.initialized = true;
        }
    }

    /// The stored value, or nothing while the cell is still empty.
    pub fn get(&self) -> (r: Option<&T>)
        requires
            self.wf(),
        ensures
            self.is_initialized() ==> (r matches Some(v) && self.stored() == Some(*v)),
            !self.is_initialized() ==> r is None,
    {
        if self.initialized {
            self.value.as_ref()
        } else {
            None
        }
    }
}

} // verus!
