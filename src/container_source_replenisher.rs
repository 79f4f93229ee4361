//! Refills a container from another container, which can run dry.
use vstd::prelude::*;

use crate::constants::MAX_OF_INGREDIENT_IN_AN_ORDER;
use crate::container::{Container, withdrawn};
use crate::order::Ingredient;
use crate::resources::{Resources, Stock, container_of, with_container, with_refill};

verus! {

/// Whether a replenisher keeps waiting on a container: while it holds more than any
/// order can draw and is not finished.
pub open spec fn replenisher_sleeps(dest: Container) -> bool {
    dest.remaining > MAX_OF_INGREDIENT_IN_AN_ORDER && !dest.finished
}

/// How much a refill moves: what fills the destination up to `max`, or all that the
/// source holds if that is less.
pub open spec fn transfer_quantity(dest: Container, source: Container, max: u64) -> u64 {
    if max - dest.remaining <= source.remaining {
        (max - dest.remaining) as u64
    } else {
        source.remaining
    }
}

/// The destination after a refill: it is finished once the source is empty.
pub open spec fn refilled_dest(dest: Container, source: Container, max: u64) -> Container {
    let q = transfer_quantity(dest, source, max);
    Container {
        remaining: (dest.remaining + q) as u64,
        consumed: dest.consumed,
        finished: source.remaining - q == 0,
    }
}

/// The source after a refill.
pub open spec fn drained_source(dest: Container, source: Container, max: u64) -> Container {
    withdrawn(source, transfer_quantity(dest, source, max))
}

/// `s` with the container of `i` marked finished.
pub open spec fn finished_at(s: Stock, i: Ingredient) -> Stock {
    let c = container_of(s, i);
    with_container(s, i, Container { remaining: c.remaining, consumed: c.consumed, finished: true })
}

/// Telling a replenisher to stop twice leaves the containers as telling it once does.
pub proof fn lemma_finish_idempotent(s: Stock, i: Ingredient)
    requires
        s.containers.len() == crate::order::TOTAL_INGREDIENTS,
    ensures
        finished_at(finished_at(s, i), i) == finished_at(s, i),
{
    crate::order::lemma_slot_bounds(i);
    assert(finished_at(finished_at(s, i), i).containers =~= finished_at(s, i).containers);
}

/// Refills the destination of a source-to-destination pair from its source.
#[derive(Clone, Copy)]
pub struct ContainerReplenisher {
    source_ingredient: Ingredient,
    dest_ingredient: Ingredient,
    max_storage_of_dest_container: u64,
}

/// What one wake-up of `r` does to the containers: nothing while the destination is
/// above the refill threshold or finished; else a refill from the source.
pub open spec fn container_activation(s: Stock, r: ContainerReplenisher) -> Stock {
    let d = container_of(s, r.dest());
    let src = container_of(s, r.source());
    if replenisher_sleeps(d) || d.finished {
        s
    } else {
        let q = transfer_quantity(d, src, r.max());
        with_refill(
            with_container(s, r.source(), drained_source(d, src, r.max())),
            r.dest(),
            refilled_dest(d, src, r.max()),
            q as int,
        )
    }
}

impl ContainerReplenisher {
    pub closed spec fn source(&self) -> Ingredient {
        self.source_ingredient
    }

    pub closed spec fn dest(&self) -> Ingredient {
        self.dest_ingredient
    }

    /// The most that the destination is filled up to.
    pub closed spec fn max(&self) -> u64 {
        self.max_storage_of_dest_container
    }

    pub open spec fn wf(&self) -> bool {
        self.source() != self.dest()
    }

    pub fn new(
        source: Ingredient,
        dest: Ingredient,
        max_storage_of_container: u64,
    ) -> (r: ContainerReplenisher)
        requires
            source != dest,
        ensures
            r.wf(),
            r.source() == source,
            r.dest() == dest,
            r.max() == max_storage_of_container,
    {
        ContainerReplenisher {
            source_ingredient: source,
            dest_ingredient: dest,
            max_storage_of_dest_container: max_storage_of_container,
        }
    }

    pub fn source_ingredient(&self) -> (r: Ingredient)
        ensures
            r == self.source(),
    {
        self.source_ingredient
    }

    pub fn dest_ingredient(&self) -> (r: Ingredient)
        ensures
            r == self.dest(),
    {
        self.dest_ingredient
    }

    /// The most that the container is filled up to.
    pub fn max_storage(&self) -> (r: u64)
        ensures
            r == self.max(),
    {
        self.max_storage_of_dest_container
    }

    /// Whether the replenisher keeps waiting on `dest`.
    pub fn should_wait(&self, dest: &Container) -> (r: bool)
        ensures
            r == replenisher_sleeps(*dest),
    {
        dest.remaining > MAX_OF_INGREDIENT_IN_AN_ORDER && !dest.finished
    }

    /// Takes from `source` what fills a destination that holds `dest_remaining` up to the
    /// maximum, or all of the source if that is less. Returns the quantity taken and
    /// whether the source is now empty.
    pub fn take_resource_from_source(&self, source: &mut Container, dest_remaining: u64) -> (r: (
        u64,
        bool,
    ))
        requires
            dest_remaining <= self.max(),
        ensures
            r.0 == transfer_quantity(
                Container { remaining: dest_remaining, consumed: 0, finished: false },
                *old(source),
                self.max(),
            ),
            *final(source) == withdrawn(*old(source), r.0),
            r.1 == (final(source).remaining == 0),
    {
        let room = self.max_storage_of_dest_container - dest_remaining;
        let replenish_quantity = if room <= source.remaining {
            room
        } else {
            source.remaining
        };
        source.withdraw(replenish_quantity);
        let source_is_empty = source.is_empty();
        (replenish_quantity, source_is_empty)
    }

    /// Refills `dest` from `source` and returns the quantity moved. The destination is
    /// finished from then on if the source is empty.
    pub fn replenish(&self, dest: &mut Container, source: &mut Container) -> (q: u64)
        requires
            old(dest).remaining <= self.max(),
        ensures
            q == transfer_quantity(*old(dest), *old(source), self.max()),
            *final(dest) == refilled_dest(*old(dest), *old(source), self.max()),
            *final(source) == drained_source(*old(dest), *old(source), self.max()),
            final(dest).remaining <= self.max(),
            final(dest).remaining == old(dest).remaining + q,
            final(source).remaining == old(source).remaining - q,
    {
        let (replenish_quantity, source_is_empty) = self.take_resource_from_source(
            source,
            dest.remaining,
        );
        dest.remaining = dest.remaining + replenish_quantity;
        dest.finished = source_is_empty;
        replenish_quantity
    }

    /// One wake-up of the replenisher on the machine's containers.
    pub fn replenish_container(&self, resources: &mut Resources)
        requires
            self.wf(),
            old(resources).wf(),
            self.max() == old(resources).spec_capacity(),
        ensures
            final(resources).wf(),
            final(resources).spec_capacity() == old(resources).spec_capacity(),
            final(resources)@ == container_activation(old(resources)@, *self),
    {
        let mut dest = resources.get(self.dest_ingredient);
        if self.should_wait(&dest) || dest.finished {
            return ;
        }
        let mut source = resources.get(self.source_ingredient);
        let q = self.replenish(&mut dest, &mut source);
        resources.set(self.source_ingredient, source);
        resources.set_refilled(self.dest_ingredient, dest, Ghost(q as int));
    }

    /// Tells the replenisher to stop: its destination will not be refilled again.
    pub fn finish(&self, resources: &mut Resources)
        requires
            old(resources).wf(),
        ensures
            final(resources).wf(),
            final(resources).spec_capacity() == old(resources).spec_capacity(),
            final(resources)@ == finished_at(old(resources)@, self.dest()),
    {
        let mut dest = resources.get(self.dest_ingredient);
        dest.finish();
        resources.set(self.dest_ingredient, dest);
    }
}

} // verus!
