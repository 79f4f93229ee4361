//! The machine's containers, one for each ingredient.
use vstd::prelude::*;

use crate::container::Container;
use crate::order::{
    Ingredient, TOTAL_INGREDIENTS, ingredient_slot, lemma_slot_bounds,
};

verus! {

/// The containers as a model: one for each ingredient, at the ingredient's slot, and
/// for each one the total that replenishers have put into it.
pub struct Stock {
    pub containers: Seq<Container>,
    pub replenished: Seq<int>,
}

/// The container of `i`.
pub open spec fn container_of(s: Stock, i: Ingredient) -> Container {
    s.containers[ingredient_slot(i)]
}

/// `s` with the container of `i` replaced by `c`.
pub open spec fn with_container(s: Stock, i: Ingredient, c: Container) -> Stock {
    Stock { containers: s.containers.update(ingredient_slot(i), c), replenished: s.replenished }
}

/// `s` after replenishers put `q` more units into the container of `i`, which is now `c`.
pub open spec fn with_refill(s: Stock, i: Ingredient, c: Container, q: int) -> Stock {
    Stock {
        containers: s.containers.update(ingredient_slot(i), c),
        replenished: s.replenished.update(
            ingredient_slot(i),
            s.replenished[ingredient_slot(i)] + q,
        ),
    }
}

/// Every container holds at most `capacity`.
pub open spec fn within_capacity(s: Stock, capacity: u64) -> bool {
    forall|k: int| 0 <= k < s.containers.len() ==> #[trigger] s.containers[k].remaining <= capacity
}

/// One container for each ingredient, none above `capacity`.
pub open spec fn stock_wf(s: Stock, capacity: u64) -> bool {
    &&& s.containers.len() == TOTAL_INGREDIENTS
    &&& s.replenished.len() == TOTAL_INGREDIENTS
    &&& within_capacity(s, capacity)
    &&& forall|k: int| 0 <= k < TOTAL_INGREDIENTS ==> #[trigger] s.replenished[k] >= 0
}

/// The containers of the machine, one for each ingredient, each holding at most the
/// capacity that they were made with.
pub struct Resources {
    containers: Vec<Container>,
    replenished: Ghost<Seq<int>>,
    capacity: u64,
}

impl View for Resources {
    type V = Stock;

    closed spec fn view(&self) -> Stock {
        Stock { containers: self.containers@, replenished: self.replenished@ }
    }
}

impl Resources {
    /// The most that a container may hold.
    pub closed spec fn spec_capacity(&self) -> u64 {
        self.capacity
    }

    pub open spec fn wf(&self) -> bool {
        stock_wf(self@, self.spec_capacity())
    }

    /// One full container of `capacity` units for each ingredient.
    pub fn new(capacity: u64) -> (r: Resources)
        ensures
            r.wf(),
            r.spec_capacity() == capacity,
            forall|i: Ingredient| #[trigger]
                container_of(r@, i) == Container::new_spec(capacity),
            r@.replenished == Seq::new(TOTAL_INGREDIENTS as nat, |k: int| 0int),
    {
        let mut containers: Vec<Container> = Vec::new();
        let mut k: usize = 0;
        while k < TOTAL_INGREDIENTS
            invariant
                k <= TOTAL_INGREDIENTS,
                containers@.len() == k,
                forall|j: int| 0 <= j < k ==> #[trigger] containers@[j] == Container::new_spec(
                    capacity,
                ),
            decreases TOTAL_INGREDIENTS - k,
        {
            containers.push(Container::new(capacity));
            k = k + 1;
        }
        let r = Resources {
            containers,
            replenished: Ghost(Seq::new(TOTAL_INGREDIENTS as nat, |k: int| 0int)),
            capacity,
        };
        assert forall|i: Ingredient| #[trigger]
            container_of(r@, i) == Container::new_spec(capacity) by {
            lemma_slot_bounds(i);
        }
        r
    }

    pub fn capacity(&self) -> (r: u64)
        ensures
            r == self.spec_capacity(),
    {
        self.capacity
    }

    /// The container of `ingredient`.
    pub fn get(&self, ingredient: Ingredient) -> (r: Container)
        requires
            self.wf(),
        ensures
            r == container_of(self@, ingredient),
    {
        self.containers[ingredient.slot()]
    }

    /// Replaces the container of `ingredient`.
    pub fn set(&mut self, ingredient: Ingredient, container: Container)
        requires
            old(self).wf(),
            container.remaining <= old(self).spec_capacity(),
        ensures
            final(self).wf(),
            final(self).spec_capacity() == old(self).spec_capacity(),
            final(self)@ == with_container(old(self)@, ingredient, container),
    {
        let k = ingredient.slot();
        self.containers.set(k, container);
    }

    /// Replaces the container of `ingredient` after a replenisher put `quantity` units into it.
    pub(crate) fn set_refilled(
        &mut self,
        ingredient: Ingredient,
        container: Container,
        quantity: Ghost<int>,
    )
        requires
            old(self).wf(),
            container.remaining <= old(self).spec_capacity(),
            quantity@ >= 0,
        ensures
            final(self).wf(),
            final(self).spec_capacity() == old(self).spec_capacity(),
            final(self)@ == with_refill(old(self)@, ingredient, container, quantity@),
    {
        let k = ingredient.slot();
        self.containers.set(k, container);
        self.replenished = Ghost(self.replenished@.update(k as int, self.replenished@[k as int] + quantity@));
    }
}

} // verus!
