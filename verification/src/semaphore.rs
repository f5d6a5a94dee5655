//! A counting semaphore, as the state that a lock would guard.
//!
//! The semaphore is owned by whoever holds the office, so an operation never
//! races another one. Blocking is left to the caller: `available` is the
//! predicate to wait on, and `acquire` takes a permit that is known to be
//! there.
use vstd::prelude::*;

verus! {

/// A signed permit counter.
pub struct Semaphore {
    count: isize,
}

impl View for Semaphore {
    type V = int;

    /// The number of permits that the semaphore holds.
    closed spec fn view(&self) -> int {
        self.count as int
    }
}

impl Semaphore {
    /// A semaphore that holds `count` permits.
    pub fn new(count: isize) -> (sem: Self)
        ensures
            sem@ == count,
    {
        Semaphore { count }
    }

    /// The number of permits held.
    pub fn permits(&self) -> (count: isize)
        ensures
            count == self@,
    {
        self.count
    }

    /// Whether a permit can be taken now. A caller that has to block waits
    /// until this holds and then calls `acquire`.
    pub fn available(&self) -> (yes: bool)
        ensures
            yes == (self@ > 0),
    {
        self.count > 0
    }

    /// Takes one permit. With exclusive access nobody else can add a permit
    /// while this call runs, so it is only defined where one is available.
    pub fn acquire(&mut self)
        requires
            old(self)@ > 0,
        ensures
            final(self)@ == old(self)@ - 1,
    {
        self.count = self.count - 1;
    }

    /// Takes one permit if there is one and says whether it did. The count is
    /// left alone when there is none.
    pub fn try_acquire(&mut self) -> (taken: bool)
        ensures
            taken == (old(self)@ > 0),
            final(self)@ == if taken { old(self)@ - 1 } else { old(self)@ },
    {
        if self.count > 0 {
            self.count = self.count - 1;
            true
        } else {
            false
        }
    }

    /// Puts one permit back.
    pub fn release(&mut self)
        requires
            old(self)@ < isize::MAX,
        ensures
            final(self)@ == old(self)@ + 1,
    {
        self.count = self.count + 1;
    }
}

} // verus!
