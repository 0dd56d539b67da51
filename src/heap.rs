//! The heap high-watermark monitor: what a global allocator wrapper counts
//! on every allocation and deallocation.
use vstd::prelude::*;

verus! {

/// The bytes currently allocated and the most ever allocated at once.
pub struct HeapWatermark {
    current: usize,
    max: usize,
}

impl HeapWatermark {
    /// Bytes allocated and not yet released.
    pub closed spec fn current_spec(&self) -> nat {
        self.current as nat
    }

    /// The largest value the current count has reached.
    pub closed spec fn max_spec(&self) -> nat {
        self.max as nat
    }

    /// The high watermark is never below the current count.
    pub open spec fn wf(&self) -> bool {
        self.max_spec() >= self.current_spec()
    }

    /// A monitor at the start of a run: nothing allocated yet.
    pub fn new() -> (r: Self)
        ensures
            r.wf(),
            r.current_spec() == 0,
            r.max_spec() == 0,
    {
        HeapWatermark { current: 0, max: 0 }
    }

    /// Counts an allocation of `size` bytes.
    pub fn on_alloc(&mut self, size: usize)
        requires
            old(self).wf(),
            old(self).current_spec() + size <= usize::MAX,
        ensures
            final(self).wf(),
            final(self).current_spec() == old(self).current_spec() + size,
            final(self).max_spec() == if final(self).current_spec() > old(self).max_spec() {
                final(self).current_spec()
            } else {
                old(self).max_spec()
            },
            final(self).max_spec() >= old(self).max_spec(),
    {
        self.current = self.current + size;
        if self.current > self.max {
            self.max = self.current;
        }
    }

    /// Counts the release of `size` bytes that an earlier allocation counted.
    pub fn on_dealloc(&mut self, size: usize)
        requires
            old(self).wf(),
            size <= old(self).current_spec(),
        ensures
            final(self).wf(),
            final(self).current_spec() == old(self).current_spec() - size,
            final(self).max_spec() == old(self).max_spec(),
    {
        self.current = self.current - size;
    }

    /// Bytes allocated and not yet released.
    pub fn current(&self) -> (r: usize)
        ensures
            r == self.current_spec(),
    {
        self.current
    }

    /// The most bytes ever allocated at once during the run.
    pub fn max_observed(&self) -> (r: usize)
        ensures
            r == self.max_spec(),
    {
        self.max
    }
}

} // verus!
