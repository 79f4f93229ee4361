//! A dispenser: takes orders from the queue and draws their ingredients.
use vstd::prelude::*;

use crate::container::{Container, withdrawn};
use crate::errors::CoffeeMakerError;
use crate::order::{Ingredient, Order, has_no_replenisher, has_replenisher};
use crate::orders_queue::OrdersQueue;
use crate::replenishers::{Replenishers, refill_round};
use crate::resources::{Resources, Stock, container_of, with_container};
use crate::container_source_replenisher::ContainerReplenisher;
use crate::external_source_replenisher::ExternalReplenisher;

verus! {

/// Whether a dispenser that needs `q` of `i` from `c` must wake the replenishers and
/// wait: only while `c` can still be refilled and does not hold enough.
pub open spec fn should_wake(c: Container, q: u64, i: Ingredient) -> bool {
    !c.finished && has_replenisher(i) && c.remaining < q
}

/// What a dispenser does with one ingredient of an order, given its container.
#[derive(Debug, Clone, Copy, PartialEq, Eq, Structural)]
pub enum DispenseOutcome {
    /// The container is short but will be refilled: wake the replenishers and wait.
    WaitForRefill,
    /// The container cannot supply the quantity: the order is abandoned.
    Skipped,
    /// The quantity was drawn from the container.
    Consumed,
}

pub open spec fn dispense_outcome(c: Container, q: u64, i: Ingredient) -> DispenseOutcome {
    if should_wake(c, q, i) {
        DispenseOutcome::WaitForRefill
    } else if c.remaining < q {
        DispenseOutcome::Skipped
    } else {
        DispenseOutcome::Consumed
    }
}

/// One ingredient step of an order on the containers `s`: if the container is short and
/// can be refilled, the replenishers are woken first; then the quantity is drawn, or the
/// step fails if the container still does not hold it.
pub open spec fn ingredient_step(
    s: Stock,
    containers: Seq<ContainerReplenisher>,
    external: Seq<ExternalReplenisher>,
    i: Ingredient,
    q: u64,
) -> (Stock, bool) {
    let s1 = if should_wake(container_of(s, i), q, i) {
        refill_round(s, containers, external)
    } else {
        s
    };
    let c1 = container_of(s1, i);
    if c1.remaining < q {
        (s1, false)
    } else {
        (with_container(s1, i, withdrawn(c1, q)), true)
    }
}

/// The steps of one order, in its order, up to the first that fails. Returns the
/// containers afterwards and whether every step succeeded. What earlier steps drew
/// stays drawn when a later one fails.
pub open spec fn order_steps(
    s: Stock,
    containers: Seq<ContainerReplenisher>,
    external: Seq<ExternalReplenisher>,
    ingredients: Seq<(Ingredient, u64)>,
) -> (Stock, bool)
    decreases ingredients.len(),
{
    if ingredients.len() == 0 {
        (s, true)
    } else {
        let (s1, ok) = ingredient_step(s, containers, external, ingredients[0].0, ingredients[0].1);
        if !ok {
            (s1, false)
        } else {
            order_steps(s1, containers, external, ingredients.drop_first())
        }
    }
}

/// The orders processed one after the other: the containers afterwards and how many
/// orders had every step succeed.
pub open spec fn run_orders(
    s: Stock,
    containers: Seq<ContainerReplenisher>,
    external: Seq<ExternalReplenisher>,
    orders: Seq<Order>,
) -> (Stock, nat)
    decreases orders.len(),
{
    if orders.len() == 0 {
        (s, 0)
    } else {
        let (s1, ok) = order_steps(s, containers, external, orders[0].ingredients@);
        let (s2, n) = run_orders(s1, containers, external, orders.drop_first());
        (s2, if ok {
            n + 1
        } else {
            n
        })
    }
}

/// A worker that takes orders and draws their ingredients.
#[derive(Clone, Copy)]
pub struct Dispenser {
    id: usize,
}

impl Dispenser {
    pub closed spec fn spec_id(&self) -> usize {
        self.id
    }

    pub fn new(id: usize) -> (r: Dispenser)
        ensures
            r.spec_id() == id,
    {
        Dispenser { id }
    }

    pub fn id(&self) -> (r: usize)
        ensures
            r == self.spec_id(),
    {
        self.id
    }

    /// The take-order step, with the queue locked after the wait for orders: `None` when
    /// the queue is drained and no more orders will come (the dispenser stops), the
    /// first order otherwise. A queue that is empty while more orders may come is an
    /// error, since the wait should not have ended then.
    pub fn take_order(&self, queue: &mut OrdersQueue) -> (r: Result<
        Option<Order>,
        CoffeeMakerError,
    >)
        ensures
            final(queue).spec_finished() == old(queue).spec_finished(),
            old(queue)@.len() > 0 ==> r == Ok::<Option<Order>, CoffeeMakerError>(
                Some(old(queue)@[0]),
            ) && final(queue)@ == old(queue)@.drop_first(),
            old(queue)@.len() == 0 ==> final(queue)@ == old(queue)@ && r == if old(
                queue,
            ).spec_finished() {
                Ok::<Option<Order>, CoffeeMakerError>(None)
            } else {
                Err(CoffeeMakerError::EmptyQueueWhenNotExpected)
            },
    {
        if queue.is_empty() {
            if queue.is_finished() {
                return Ok(None);
            }
            return Err(CoffeeMakerError::EmptyQueueWhenNotExpected);
        }
        match queue.pop() {
            Some(order) => Ok(Some(order)),
            None => Err(CoffeeMakerError::EmptyQueueWhenNotExpected),
        }
    }

    /// Whether the dispenser must wake the replenishers and wait before drawing
    /// `quantity_required` of `ingredient` from `container`.
    pub fn should_wake_replenisher(
        &self,
        container: &Container,
        quantity_required: u64,
        ingredient: Ingredient,
    ) -> (r: bool)
        ensures
            r == should_wake(*container, quantity_required, ingredient),
    {
        if container.finished || has_no_replenisher(&ingredient) {
            return false;
        }
        container.remaining < quantity_required
    }

    /// Draws `quantity_required` from `container`.
    pub fn consume_ingredient(&self, container: &mut Container, quantity_required: u64)
        requires
            quantity_required <= old(container).remaining,
        ensures
            *final(container) == withdrawn(*old(container), quantity_required),
    {
        container.withdraw(quantity_required);
    }

    /// Decides on one ingredient with its container locked, and draws it when it can.
    pub fn dispense(
        &self,
        container: &mut Container,
        quantity_required: u64,
        ingredient: Ingredient,
    ) -> (r: DispenseOutcome)
        ensures
            r == dispense_outcome(*old(container), quantity_required, ingredient),
            r == DispenseOutcome::Consumed ==> *final(container) == withdrawn(
                *old(container),
                quantity_required,
            ),
            r != DispenseOutcome::Consumed ==> *final(container) == *old(container),
    {
        if self.should_wake_replenisher(container, quantity_required, ingredient) {
            DispenseOutcome::WaitForRefill
        } else if container.remaining < quantity_required {
            DispenseOutcome::Skipped
        } else {
            self.consume_ingredient(container, quantity_required);
            DispenseOutcome::Consumed
        }
    }

    /// Counts one more order whose every ingredient was drawn.
    pub fn increase_processed_orders(&self, orders_processed: &mut u64)
        requires
            *old(orders_processed) < u64::MAX,
        ensures
            *final(orders_processed) == *old(orders_processed) + 1,
    {
        *orders_processed = *orders_processed + 1;
    }

    /// Draws the ingredients of `order` in its order, waking the replenishers where a
    /// container is short. Stops at the first ingredient that cannot be supplied, keeping
    /// what was drawn before it. Returns whether every ingredient was drawn; only then is
    /// the order counted.
    pub fn process_order(
        &self,
        resources: &mut Resources,
        replenishers: &Replenishers,
        orders_processed: &mut u64,
        order: Order,
    ) -> (r: bool)
        requires
            old(resources).wf(),
            replenishers.wf(old(resources).spec_capacity()),
            *old(orders_processed) < u64::MAX,
        ensures
            final(resources).wf(),
            final(resources).spec_capacity() == old(resources).spec_capacity(),
            (final(resources)@, r) == order_steps(
                old(resources)@,
                replenishers.containers@,
                replenishers.external@,
                order.ingredients@,
            ),
            *final(orders_processed) == *old(orders_processed) + if r {
                1int
            } else {
                0int
            },
    {
        let ghost cr = replenishers.containers@;
        let ghost er = replenishers.external@;
        let ghost all = order.ingredients@;
        let ghost target = order_steps(resources@, cr, er, all);
        let mut k: usize = 0;
        assert(all.subrange(0, all.len() as int) =~= all);
        while k < order.ingredients.len()
            invariant
                k <= all.len(),
                all == order.ingredients@,
                resources.wf(),
                resources.spec_capacity() == old(resources).spec_capacity(),
                replenishers.wf(resources.spec_capacity()),
                cr == replenishers.containers@,
                er == replenishers.external@,
                target == order_steps(old(resources)@, cr, er, all),
                target == order_steps(resources@, cr, er, all.subrange(k as int, all.len() as int)),
                *orders_processed == *old(orders_processed),
            decreases all.len() - k,
        {
            let (ingredient, quantity_required) = order.ingredients[k];
            assert(all.subrange(k as int, all.len() as int).drop_first() =~= all.subrange(
                k + 1,
                all.len() as int,
            ));
            assert(all.subrange(k as int, all.len() as int)[0] == (ingredient, quantity_required));
            let ghost before = resources@;
            let mut container = resources.get(ingredient);
            if self.should_wake_replenisher(&container, quantity_required, ingredient) {
                replenishers.wake_all(resources);
                container = resources.get(ingredient);
            }
            if container.remaining < quantity_required {
                assert(ingredient_step(before, cr, er, ingredient, quantity_required) == (
                    resources@,
                    false,
                ));
                assert(order_steps(before, cr, er, all.subrange(k as int, all.len() as int)) == (
                    resources@,
                    false,
                ));
                return false;
            }
            self.consume_ingredient(&mut container, quantity_required);
            resources.set(ingredient, container);
            assert(ingredient_step(before, cr, er, ingredient, quantity_required) == (
                resources@,
                true,
            ));
            k = k + 1;
        }
        assert(all.subrange(k as int, all.len() as int) =~= Seq::<(Ingredient, u64)>::empty());
        self.increase_processed_orders(orders_processed);
        true
    }

    /// Takes orders from the queue and processes each, until the queue is empty. Ends
    /// normally if no more orders will come; an empty queue that is not finished is an
    /// error, since nothing else can fill it while this dispenser runs.
    pub fn handle_orders(
        &self,
        queue: &mut OrdersQueue,
        resources: &mut Resources,
        replenishers: &Replenishers,
        orders_processed: &mut u64,
    ) -> (r: Result<(), CoffeeMakerError>)
        requires
            old(resources).wf(),
            replenishers.wf(old(resources).spec_capacity()),
            *old(orders_processed) + old(queue)@.len() <= u64::MAX,
        ensures
            final(resources).wf(),
            final(resources).spec_capacity() == old(resources).spec_capacity(),
            final(queue)@.len() == 0,
            final(queue).spec_finished() == old(queue).spec_finished(),
            final(resources)@ == run_orders(
                old(resources)@,
                replenishers.containers@,
                replenishers.external@,
                old(queue)@,
            ).0,
            *final(orders_processed) == *old(orders_processed) + run_orders(
                old(resources)@,
                replenishers.containers@,
                replenishers.external@,
                old(queue)@,
            ).1,
            r == if old(queue).spec_finished() {
                Ok::<(), CoffeeMakerError>(())
            } else {
                Err(CoffeeMakerError::EmptyQueueWhenNotExpected)
            },
    {
        let ghost cr = replenishers.containers@;
        let ghost er = replenishers.external@;
        let ghost target = run_orders(resources@, cr, er, queue@);
        let ghost start = *orders_processed;
        let ghost total = queue@.len();
        loop
            invariant
                resources.wf(),
                resources.spec_capacity() == old(resources).spec_capacity(),
                replenishers.wf(resources.spec_capacity()),
                cr == replenishers.containers@,
                er == replenishers.external@,
                queue.spec_finished() == old(queue).spec_finished(),
                target == run_orders(old(resources)@, cr, er, old(queue)@),
                total == old(queue)@.len(),
                start == *old(orders_processed),
                target.0 == run_orders(resources@, cr, er, queue@).0,
                target.1 == (*orders_processed - start) + run_orders(resources@, cr, er, queue@).1,
                start <= *orders_processed,
                *orders_processed - start + queue@.len() <= total,
                start + total <= u64::MAX,
            decreases queue@.len(),
        {
            match self.take_order(queue) {
                Ok(Some(order)) => {
                    self.process_order(resources, replenishers, orders_processed, order);
                },
                Ok(None) => {
                    return Ok(());
                },
                Err(e) => {
                    return Err(e);
                },
            }
        }
    }
}

} // verus!
