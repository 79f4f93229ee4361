//! The machine's replenishers, woken together.
use vstd::prelude::*;

use crate::container_source_replenisher::{ContainerReplenisher, container_activation, finished_at};
use crate::external_source_replenisher::{ExternalReplenisher, external_activation};
use crate::resources::{Resources, Stock};

verus! {

/// The replenishers that refill from another container, then those that refill from
/// an inexhaustible source.
pub struct Replenishers {
    pub containers: Vec<ContainerReplenisher>,
    pub external: Vec<ExternalReplenisher>,
}

/// What waking the first `reps.len()` container replenishers in turn does.
pub open spec fn containers_round(s: Stock, reps: Seq<ContainerReplenisher>) -> Stock
    decreases reps.len(),
{
    if reps.len() == 0 {
        s
    } else {
        container_activation(containers_round(s, reps.drop_last()), reps.last())
    }
}

/// What waking the external replenishers in turn does.
pub open spec fn external_round(s: Stock, reps: Seq<ExternalReplenisher>) -> Stock
    decreases reps.len(),
{
    if reps.len() == 0 {
        s
    } else {
        external_activation(external_round(s, reps.drop_last()), reps.last())
    }
}

/// What a broadcast to the replenishers does: each one wakes and refills its
/// container if that container needs it.
pub open spec fn refill_round(
    s: Stock,
    containers: Seq<ContainerReplenisher>,
    external: Seq<ExternalReplenisher>,
) -> Stock {
    external_round(containers_round(s, containers), external)
}

/// The containers after every container replenisher was told to stop.
pub open spec fn containers_finished(s: Stock, reps: Seq<ContainerReplenisher>) -> Stock
    decreases reps.len(),
{
    if reps.len() == 0 {
        s
    } else {
        finished_at(containers_finished(s, reps.drop_last()), reps.last().dest())
    }
}

/// The containers after every external replenisher was told to stop.
pub open spec fn external_finished(s: Stock, reps: Seq<ExternalReplenisher>) -> Stock
    decreases reps.len(),
{
    if reps.len() == 0 {
        s
    } else {
        finished_at(external_finished(s, reps.drop_last()), reps.last().ingredient())
    }
}

impl Replenishers {
    /// Each replenisher pairs two distinct containers and fills up to `capacity`.
    pub open spec fn wf(&self, capacity: u64) -> bool {
        &&& forall|k: int|
            0 <= k < self.containers@.len() ==> (#[trigger] self.containers@[k]).wf()
                && self.containers@[k].max() == capacity
        &&& forall|k: int|
            0 <= k < self.external@.len() ==> (#[trigger] self.external@[k]).max() == capacity
    }

    pub fn new(
        containers: Vec<ContainerReplenisher>,
        external: Vec<ExternalReplenisher>,
    ) -> (r: Replenishers)
        ensures
            r.containers@ == containers@,
            r.external@ == external@,
    {
        Replenishers { containers, external }
    }

    /// Wakes every replenisher once, as a broadcast on their condition does.
    pub fn wake_all(&self, resources: &mut Resources)
        requires
            old(resources).wf(),
            self.wf(old(resources).spec_capacity()),
        ensures
            final(resources).wf(),
            final(resources).spec_capacity() == old(resources).spec_capacity(),
            final(resources)@ == refill_round(old(resources)@, self.containers@, self.external@),
    {
        let ghost s0 = resources@;
        let mut k: usize = 0;
        while k < self.containers.len()
            invariant
                k <= self.containers@.len(),
                resources.wf(),
                resources.spec_capacity() == old(resources).spec_capacity(),
                self.wf(resources.spec_capacity()),
                resources@ == containers_round(s0, self.containers@.subrange(0, k as int)),
            decreases self.containers@.len() - k,
        {
            assert(self.containers@.subrange(0, k + 1).drop_last() =~= self.containers@.subrange(
                0,
                k as int,
            ));
            self.containers[k].replenish_container(resources);
            k = k + 1;
        }
        assert(self.containers@.subrange(0, k as int) =~= self.containers@);
        let ghost s1 = resources@;
        let mut j: usize = 0;
        while j < self.external.len()
            invariant
                j <= self.external@.len(),
                resources.wf(),
                resources.spec_capacity() == old(resources).spec_capacity(),
                self.wf(resources.spec_capacity()),
                resources@ == external_round(s1, self.external@.subrange(0, j as int)),
            decreases self.external@.len() - j,
        {
            assert(self.external@.subrange(0, j + 1).drop_last() =~= self.external@.subrange(
                0,
                j as int,
            ));
            self.external[j].replenish_container(resources);
            j = j + 1;
        }
        assert(self.external@.subrange(0, j as int) =~= self.external@);
    }

    /// Tells every replenisher to stop.
    pub fn finish_all(&self, resources: &mut Resources)
        requires
            old(resources).wf(),
        ensures
            final(resources).wf(),
            final(resources).spec_capacity() == old(resources).spec_capacity(),
            final(resources)@ == external_finished(
                containers_finished(old(resources)@, self.containers@),
                self.external@,
            ),
    {
        let ghost s0 = resources@;
        let mut k: usize = 0;
        while k < self.containers.len()
            invariant
                k <= self.containers@.len(),
                resources.wf(),
                resources.spec_capacity() == old(resources).spec_capacity(),
                resources@ == containers_finished(s0, self.containers@.subrange(0, k as int)),
            decreases self.containers@.len() - k,
        {
            assert(self.containers@.subrange(0, k + 1).drop_last() =~= self.containers@.subrange(
                0,
                k as int,
            ));
            self.containers[k].finish(resources);
            k = k + 1;
        }
        assert(self.containers@.subrange(0, k as int) =~= self.containers@);
        let ghost s1 = resources@;
        let mut j: usize = 0;
        while j < self.external.len()
            invariant
                j <= self.external@.len(),
                resources.wf(),
                resources.spec_capacity() == old(resources).spec_capacity(),
                resources@ == external_finished(s1, self.external@.subrange(0, j as int)),
            decreases self.external@.len() - j,
        {
            assert(self.external@.subrange(0, j + 1).drop_last() =~= self.external@.subrange(
                0,
                j as int,
            ));
            self.external[j].finish(resources);
            j = j + 1;
        }
        assert(self.external@.subrange(0, j as int) =~= self.external@);
    }
}

} // verus!
