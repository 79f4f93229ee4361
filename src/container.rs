//! A container of one ingredient.
use vstd::prelude::*;

verus! {

/// The stock of one ingredient: what is left, how much was drawn from it, and
/// whether it will ever be refilled again.
#[derive(Debug, Clone, Copy, PartialEq, Eq, Structural)]
pub struct Container {
    pub remaining: u64,
    pub consumed: u64,
    pub finished: bool,
}

/// `a + b`, or `u64::MAX` where the sum does not fit.
pub open spec fn saturating_sum(a: u64, b: u64) -> u64 {
    if a + b > u64::MAX {
        u64::MAX
    } else {
        (a + b) as u64
    }
}

/// The container after `q` units were drawn from it.
pub open spec fn withdrawn(c: Container, q: u64) -> Container
    recommends
        q <= c.remaining,
{
    Container {
        remaining: (c.remaining - q) as u64,
        consumed: saturating_sum(c.consumed, q),
        finished: c.finished,
    }
}

impl Container {
    /// A full container that nothing was drawn from.
    pub open spec fn new_spec(initial_capacity: u64) -> Container {
        Container { remaining: initial_capacity, consumed: 0, finished: false }
    }

    pub fn new(initial_capacity: u64) -> (r: Container)
        ensures
            r == Container::new_spec(initial_capacity),
    {
        Container { remaining: initial_capacity, consumed: 0, finished: false }
    }

    pub fn is_empty(&self) -> (r: bool)
        ensures
            r == (self.remaining == 0),
    {
        self.remaining == 0
    }

    /// Records that the container will not be refilled again.
    pub fn finish(&mut self)
        ensures
            final(self).remaining == old(self).remaining,
            final(self).consumed == old(self).consumed,
            final(self).finished,
    {
        self.finished = true;
    }

    /// Draws `quantity` units. The running total of what was drawn stops at `u64::MAX`.
    pub fn withdraw(&mut self, quantity: u64)
        requires
            quantity <= old(self).remaining,
        ensures
            *final(self) == withdrawn(*old(self), quantity),
    {
        self.remaining = self.remaining - quantity;
        self.consumed = self.consumed.saturating_add(quantity);
    }
}

} // verus!
