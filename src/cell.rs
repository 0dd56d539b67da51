//! An owned cell for state that a single-threaded run shares with callbacks.
use vstd::prelude::*;

verus! {

/// Holds one value for the duration of a run.
///
/// The execution environment is single threaded; whoever owns the cell hands
/// out exclusive access to the value it holds.
pub struct SendCell<T> {
    inner: T,
}

impl<T> SendCell<T> {
    /// The value currently held.
    pub closed spec fn value(&self) -> T {
        self.inner
    }

    pub fn new(value: T) -> (r: Self)
        ensures
            r.value() == value,
    {
        SendCell { inner: value }
    }

    /// Exclusive access to the held value; writes through the returned
    /// reference become the cell's new value.
    pub fn borrow_mut(&mut self) -> (r: &mut T)
        ensures
            *r == old(self).value(),
            final(self).value() == *final(r),
    {
        &mut self.inner
    }
}

} // verus!
