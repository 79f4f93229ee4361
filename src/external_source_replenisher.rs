//! Refills a container from a source that never runs dry, such as the water supply.
use vstd::prelude::*;

use crate::constants::MAX_OF_INGREDIENT_IN_AN_ORDER;
use crate::container::Container;
use crate::container_source_replenisher::{finished_at, replenisher_sleeps};
use crate::order::Ingredient;
use crate::resources::{Resources, Stock, container_of, with_refill};

verus! {

/// The container after a refill from an inexhaustible source: full again.
pub open spec fn topped_up(c: Container, max: u64) -> Container {
    Container { remaining: max, consumed: c.consumed, finished: c.finished }
}

/// Refills one container from an inexhaustible source.
#[derive(Clone, Copy)]
pub struct ExternalReplenisher {
    ingredient: Ingredient,
    max_storage_of_container: u64,
}

/// What one wake-up of `r` does to the containers: nothing while its container is above
/// the refill threshold or finished; else it fills the container up.
pub open spec fn external_activation(s: Stock, r: ExternalReplenisher) -> Stock {
    let c = container_of(s, r.ingredient());
    if replenisher_sleeps(c) || c.finished {
        s
    } else {
        with_refill(s, r.ingredient(), topped_up(c, r.max()), r.max() - c.remaining)
    }
}

impl ExternalReplenisher {
    pub closed spec fn ingredient(&self) -> Ingredient {
        self.ingredient
    }

    /// The most that the container is filled up to.
    pub closed spec fn max(&self) -> u64 {
        self.max_storage_of_container
    }

    pub fn new(ingredient: Ingredient, max_storage_of_container: u64) -> (r: ExternalReplenisher)
        ensures
            r.ingredient() == ingredient,
            r.max() == max_storage_of_container,
    {
        ExternalReplenisher { ingredient, max_storage_of_container }
    }

    pub fn ingredient_of(&self) -> (r: Ingredient)
        ensures
            r == self.ingredient(),
    {
        self.ingredient
    }

    /// The most that the container is filled up to.
    pub fn max_storage(&self) -> (r: u64)
        ensures
            r == self.max(),
    {
        self.max_storage_of_container
    }

    /// Whether the replenisher keeps waiting on `container`.
    pub fn should_wait(&self, container: &Container) -> (r: bool)
        ensures
            r == replenisher_sleeps(*container),
    {
        container.remaining > MAX_OF_INGREDIENT_IN_AN_ORDER && !container.finished
    }

    /// Fills `container` up to the maximum and returns the quantity added.
    pub fn replenish(&self, container: &mut Container) -> (q: u64)
        requires
            old(container).remaining <= self.max(),
        ensures
            q == self.max() - old(container).remaining,
            *final(container) == topped_up(*old(container), self.max()),
            final(container).remaining == self.max(),
    {
        let replenish_quantity = self.max_storage_of_container - container.remaining;
        container.remaining = container.remaining + replenish_quantity;
        replenish_quantity
    }

    /// One wake-up of the replenisher on the machine's containers.
    pub fn replenish_container(&self, resources: &mut Resources)
        requires
            old(resources).wf(),
            self.max() == old(resources).spec_capacity(),
        ensures
            final(resources).wf(),
            final(resources).spec_capacity() == old(resources).spec_capacity(),
            final(resources)@ == external_activation(old(resources)@, *self),
    {
        let mut container = resources.get(self.ingredient);
        if self.should_wait(&container) || container.finished {
            return ;
        }
        let q = self.replenish(&mut container);
        resources.set_refilled(self.ingredient, container, Ghost(q as int));
    }

    /// Tells the replenisher to stop: its container will not be refilled again.
    pub fn finish(&self, resources: &mut Resources)
        requires
            old(resources).wf(),
        ensures
            final(resources).wf(),
            final(resources).spec_capacity() == old(resources).spec_capacity(),
            final(resources)@ == finished_at(old(resources)@, self.ingredient()),
    {
        let mut container = resources.get(self.ingredient);
        container.finish();
        resources.set(self.ingredient, container);
    }
}

} // verus!
