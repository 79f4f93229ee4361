//! The whole machine: the reader, the dispensers, the replenishers and the statistics
//! printer, run in one order that the concurrent machine can also take.
use vstd::prelude::*;

use crate::constants::{
    A_WATER_STORAGE, CONTAINER_CAPACITY, E_FOAM_STORAGE, MAX_OF_INGREDIENT_IN_AN_ORDER,
    M_COFFEE_STORAGE, N_DISPENSERS,
};
use crate::container::Container;
use crate::container_source_replenisher::{
    ContainerReplenisher, container_activation, finished_at, transfer_quantity,
};
use crate::dispenser::{Dispenser, ingredient_step, order_steps, run_orders, should_wake};
use crate::errors::CoffeeMakerError;
use crate::external_source_replenisher::{ExternalReplenisher, external_activation};
use crate::order::{Ingredient, Order, TOTAL_INGREDIENTS, ingredient_slot, orderable};
use crate::orders_queue::OrdersQueue;
use crate::orders_reader::{JsonOrder, order_from, orderable_order, read_and_add_orders};
use crate::replenishers::{
    Replenishers, containers_finished, containers_round, external_finished, external_round,
    refill_round,
};
use crate::resources::{Resources, Stock, container_of, stock_wf};
use crate::statistics::{StatisticsPrinter, statistics_text, warnings_text};

verus! {

/// The machine's container replenishers: grains to ground coffee, cold milk to milk foam.
pub open spec fn machine_container_replenishers(cr: Seq<ContainerReplenisher>) -> bool {
    &&& cr.len() == 2
    &&& cr[0].source() == Ingredient::GrainsToGrind
    &&& cr[0].dest() == Ingredient::GroundCoffee
    &&& cr[0].max() == CONTAINER_CAPACITY
    &&& cr[1].source() == Ingredient::ColdMilk
    &&& cr[1].dest() == Ingredient::MilkFoam
    &&& cr[1].max() == CONTAINER_CAPACITY
}

/// The machine's external replenisher: hot water.
pub open spec fn machine_external_replenishers(er: Seq<ExternalReplenisher>) -> bool {
    &&& er.len() == 1
    &&& er[0].ingredient() == Ingredient::HotWater
    &&& er[0].max() == CONTAINER_CAPACITY
}

/// Consumed plus remaining, for the container of `i`.
pub open spec fn accounted(s: Stock, i: Ingredient) -> int {
    container_of(s, i).consumed + container_of(s, i).remaining
}

/// Total that replenishers put into the container of `i`.
pub open spec fn replenished_into(s: Stock, i: Ingredient) -> int {
    s.replenished[ingredient_slot(i)]
}

/// What holds of the machine's containers at every point of a run:
/// - none holds more than the capacity;
/// - what was drawn from a container plus what is left is the capacity plus what
///   replenishers put in (at most that for the hot water, whose running total of what
///   was drawn stops at `u64::MAX`);
/// - what was drawn from a source reservoir is exactly what went into its destination;
/// - nothing is ever put into a container that has no replenisher.
pub open spec fn machine_ok(s: Stock) -> bool {
    let cap = CONTAINER_CAPACITY as int;
    &&& stock_wf(s, CONTAINER_CAPACITY)
    &&& accounted(s, Ingredient::Cacao) == cap
    &&& accounted(s, Ingredient::GrainsToGrind) == cap
    &&& accounted(s, Ingredient::ColdMilk) == cap
    &&& replenished_into(s, Ingredient::Cacao) == 0
    &&& replenished_into(s, Ingredient::GrainsToGrind) == 0
    &&& replenished_into(s, Ingredient::ColdMilk) == 0
    &&& accounted(s, Ingredient::GroundCoffee) == cap + replenished_into(
        s,
        Ingredient::GroundCoffee,
    )
    &&& accounted(s, Ingredient::MilkFoam) == cap + replenished_into(s, Ingredient::MilkFoam)
    &&& accounted(s, Ingredient::HotWater) <= cap + replenished_into(s, Ingredient::HotWater)
    &&& container_of(s, Ingredient::GrainsToGrind).consumed == replenished_into(
        s,
        Ingredient::GroundCoffee,
    )
    &&& container_of(s, Ingredient::ColdMilk).consumed == replenished_into(
        s,
        Ingredient::MilkFoam,
    )
}

/// `orders` are the orders that the reader makes of `json`: one for each, in file order.
pub open spec fn read_as(orders: Seq<Order>, json: Seq<JsonOrder>) -> bool {
    &&& orders.len() == json.len()
    &&& forall|k: int| 0 <= k < orders.len() ==> order_from(#[trigger] orders[k], k, json[k])
}

/// The containers after the shutdown: every replenisher told to stop.
pub open spec fn shut_down(
    s: Stock,
    cr: Seq<ContainerReplenisher>,
    er: Seq<ExternalReplenisher>,
) -> Stock {
    external_finished(containers_finished(s, cr), er)
}

proof fn lemma_container_activation(s: Stock, r: ContainerReplenisher)
    requires
        machine_ok(s),
        r.max() == CONTAINER_CAPACITY,
        (r.source() == Ingredient::GrainsToGrind && r.dest() == Ingredient::GroundCoffee) || (
        r.source() == Ingredient::ColdMilk && r.dest() == Ingredient::MilkFoam),
    ensures
        machine_ok(container_activation(s, r)),
{
    let s2 = container_activation(s, r);
    let d = container_of(s, r.dest());
    let src = container_of(s, r.source());
    let q = transfer_quantity(d, src, r.max());
    assert(forall|k: int| 0 <= k < TOTAL_INGREDIENTS ==> #[trigger] s2.replenished[k] >= 0);
    assert(forall|k: int|
        0 <= k < s2.containers.len() ==> #[trigger] s2.containers[k].remaining
            <= CONTAINER_CAPACITY);
}

proof fn lemma_external_activation(s: Stock, r: ExternalReplenisher)
    requires
        machine_ok(s),
        r.max() == CONTAINER_CAPACITY,
        r.ingredient() == Ingredient::HotWater,
    ensures
        machine_ok(external_activation(s, r)),
{
    let s2 = external_activation(s, r);
    assert(forall|k: int| 0 <= k < TOTAL_INGREDIENTS ==> #[trigger] s2.replenished[k] >= 0);
    assert(forall|k: int|
        0 <= k < s2.containers.len() ==> #[trigger] s2.containers[k].remaining
            <= CONTAINER_CAPACITY);
}

/// A broadcast to the machine's replenishers keeps what `machine_ok` states.
pub proof fn lemma_refill_round(s: Stock, cr: Seq<ContainerReplenisher>, er: Seq<ExternalReplenisher>)
    requires
        machine_ok(s),
        machine_container_replenishers(cr),
        machine_external_replenishers(er),
    ensures
        machine_ok(refill_round(s, cr, er)),
{
    reveal_with_fuel(containers_round, 3);
    reveal_with_fuel(external_round, 2);
    assert(cr.drop_last().drop_last() =~= Seq::<ContainerReplenisher>::empty());
    assert(cr.drop_last().last() == cr[0]);
    assert(er.drop_last() =~= Seq::<ExternalReplenisher>::empty());
    let s1 = container_activation(s, cr[0]);
    lemma_container_activation(s, cr[0]);
    assert(containers_round(s, cr.drop_last()) == s1);
    lemma_container_activation(s1, cr[1]);
    let s2 = container_activation(s1, cr[1]);
    assert(containers_round(s, cr) == s2);
    lemma_external_activation(s2, er[0]);
}

/// One ingredient step of an order read from a file keeps what `machine_ok` states.
pub proof fn lemma_ingredient_step(
    s: Stock,
    cr: Seq<ContainerReplenisher>,
    er: Seq<ExternalReplenisher>,
    i: Ingredient,
    q: u64,
)
    requires
        machine_ok(s),
        machine_container_replenishers(cr),
        machine_external_replenishers(er),
        orderable(i),
    ensures
        machine_ok(ingredient_step(s, cr, er, i, q).0),
{
    let s1 = if should_wake(container_of(s, i), q, i) {
        lemma_refill_round(s, cr, er);
        refill_round(s, cr, er)
    } else {
        s
    };
    assert(machine_ok(s1));
    let s2 = ingredient_step(s, cr, er, i, q).0;
    assert(forall|k: int| 0 <= k < TOTAL_INGREDIENTS ==> #[trigger] s2.replenished[k] >= 0);
    assert(forall|k: int|
        0 <= k < s2.containers.len() ==> #[trigger] s2.containers[k].remaining
            <= CONTAINER_CAPACITY);
}

/// The steps of an order read from a file keep what `machine_ok` states.
pub proof fn lemma_order_steps(
    s: Stock,
    cr: Seq<ContainerReplenisher>,
    er: Seq<ExternalReplenisher>,
    ingredients: Seq<(Ingredient, u64)>,
)
    requires
        machine_ok(s),
        machine_container_replenishers(cr),
        machine_external_replenishers(er),
        forall|k: int| 0 <= k < ingredients.len() ==> orderable((#[trigger] ingredients[k]).0),
    ensures
        machine_ok(order_steps(s, cr, er, ingredients).0),
    decreases ingredients.len(),
{
    if ingredients.len() > 0 {
        lemma_ingredient_step(s, cr, er, ingredients[0].0, ingredients[0].1);
        let s1 = ingredient_step(s, cr, er, ingredients[0].0, ingredients[0].1).0;
        let rest = ingredients.drop_first();
        assert(forall|k: int| 0 <= k < rest.len() ==> #[trigger] rest[k] == ingredients[k + 1]);
        lemma_order_steps(s1, cr, er, rest);
    }
}

/// Processing orders read from a file keeps what `machine_ok` states, and counts at
/// most one for each order.
pub proof fn lemma_run_orders(
    s: Stock,
    cr: Seq<ContainerReplenisher>,
    er: Seq<ExternalReplenisher>,
    orders: Seq<Order>,
)
    requires
        machine_ok(s),
        machine_container_replenishers(cr),
        machine_external_replenishers(er),
        forall|k: int| 0 <= k < orders.len() ==> orderable_order(#[trigger] orders[k]),
    ensures
        machine_ok(run_orders(s, cr, er, orders).0),
        run_orders(s, cr, er, orders).1 <= orders.len(),
    decreases orders.len(),
{
    if orders.len() > 0 {
        let o = orders[0];
        assert(orderable_order(o));
        assert(forall|k: int|
            0 <= k < o.ingredients@.len() ==> orderable((#[trigger] o.ingredients@[k]).0));
        lemma_order_steps(s, cr, er, o.ingredients@);
        let s1 = order_steps(s, cr, er, o.ingredients@).0;
        let rest = orders.drop_first();
        assert(forall|k: int| 0 <= k < rest.len() ==> #[trigger] rest[k] == orders[k + 1]);
        lemma_run_orders(s1, cr, er, rest);
    }
}

/// A dispenser that asks for at most the largest quantity of an order, and wakes the
/// machine's replenishers because its container is short, finds after that one refill
/// either enough or a container that will never be refilled: it does not wait twice.
pub proof fn lemma_one_refill_suffices(
    s: Stock,
    cr: Seq<ContainerReplenisher>,
    er: Seq<ExternalReplenisher>,
    i: Ingredient,
    q: u64,
)
    requires
        machine_ok(s),
        machine_container_replenishers(cr),
        machine_external_replenishers(er),
        q <= MAX_OF_INGREDIENT_IN_AN_ORDER,
        should_wake(container_of(s, i), q, i),
    ensures
        !should_wake(container_of(refill_round(s, cr, er), i), q, i),
{
    reveal_with_fuel(containers_round, 3);
    reveal_with_fuel(external_round, 2);
    assert(cr.drop_last().drop_last() =~= Seq::<ContainerReplenisher>::empty());
    assert(cr.drop_last().last() == cr[0]);
    assert(er.drop_last() =~= Seq::<ExternalReplenisher>::empty());
    let s1 = container_activation(s, cr[0]);
    assert(containers_round(s, cr.drop_last()) == s1);
    let s2 = container_activation(s1, cr[1]);
    assert(containers_round(s, cr) == s2);
}

/// Telling the machine's replenishers to stop keeps what `machine_ok` states.
pub proof fn lemma_shut_down(s: Stock, cr: Seq<ContainerReplenisher>, er: Seq<ExternalReplenisher>)
    requires
        machine_ok(s),
        machine_container_replenishers(cr),
        machine_external_replenishers(er),
    ensures
        machine_ok(shut_down(s, cr, er)),
{
    reveal_with_fuel(containers_finished, 3);
    reveal_with_fuel(external_finished, 2);
    assert(cr.drop_last().drop_last() =~= Seq::<ContainerReplenisher>::empty());
    assert(cr.drop_last().last() == cr[0]);
    assert(er.drop_last() =~= Seq::<ExternalReplenisher>::empty());
    let s1 = finished_at(s, cr[0].dest());
    assert(machine_ok(s1));
    let s2 = finished_at(s1, cr[1].dest());
    assert(machine_ok(s2));
    assert(containers_finished(s, cr) == s2);
    let s3 = finished_at(s2, er[0].ingredient());
    assert(machine_ok(s3));
}

/// The machine. Its run is one schedule of the concurrent machine: the reader queues
/// every order, the first dispenser takes and processes them one by one while the
/// others find the queue drained, the replenishers refill whenever a dispenser wakes
/// them, and the shutdown stops the replenishers and then the statistics printer.
pub struct CoffeeMaker {
    orders_queue: OrdersQueue,
    resources: Resources,
    orders_processed: u64,
    dispensers: Vec<Dispenser>,
    replenishers: Replenishers,
    statistics_printer: StatisticsPrinter,
}

impl CoffeeMaker {
    /// The containers, with what replenishers put into each.
    pub closed spec fn stock(&self) -> Stock {
        self.resources@
    }

    pub closed spec fn processed(&self) -> u64 {
        self.orders_processed
    }

    pub closed spec fn queue(&self) -> Seq<Order> {
        self.orders_queue@
    }

    pub closed spec fn queue_finished(&self) -> bool {
        self.orders_queue.spec_finished()
    }

    pub closed spec fn printer_finished(&self) -> bool {
        self.statistics_printer.spec_finished()
    }

    pub closed spec fn container_replenishers(&self) -> Seq<ContainerReplenisher> {
        self.replenishers.containers@
    }

    pub closed spec fn external_replenishers(&self) -> Seq<ExternalReplenisher> {
        self.replenishers.external@
    }

    /// The machine between runs: its containers as `machine_ok` says, its replenishers
    /// the machine's, and no order waiting.
    pub closed spec fn inv(&self) -> bool {
        &&& self.resources.wf()
        &&& self.resources.spec_capacity() == CONTAINER_CAPACITY
        &&& machine_ok(self.resources@)
        &&& machine_container_replenishers(self.replenishers.containers@)
        &&& machine_external_replenishers(self.replenishers.external@)
        &&& self.dispensers@.len() == N_DISPENSERS
        &&& self.orders_queue@.len() == 0
    }

    /// A new machine: every container full, nothing processed, no order queued.
    pub fn new() -> (r: CoffeeMaker)
        ensures
            r.inv(),
            machine_ok(r.stock()),
            r.processed() == 0,
            r.queue() == Seq::<Order>::empty(),
            !r.queue_finished(),
            !r.printer_finished(),
            forall|i: Ingredient| #[trigger]
                container_of(r.stock(), i) == Container::new_spec(CONTAINER_CAPACITY),
            forall|i: Ingredient| #[trigger] replenished_into(r.stock(), i) == 0,
    {
        let resources = Resources::new(CONTAINER_CAPACITY);
        let mut dispensers: Vec<Dispenser> = Vec::new();
        let mut id: usize = 0;
        while id < N_DISPENSERS
            invariant
                id <= N_DISPENSERS,
                dispensers@.len() == id,
            decreases N_DISPENSERS - id,
        {
            dispensers.push(Dispenser::new(id));
            id = id + 1;
        }
        let mut containers: Vec<ContainerReplenisher> = Vec::new();
        containers.push(
            ContainerReplenisher::new(
                Ingredient::GrainsToGrind,
                Ingredient::GroundCoffee,
                M_COFFEE_STORAGE,
            ),
        );
        containers.push(
            ContainerReplenisher::new(Ingredient::ColdMilk, Ingredient::MilkFoam, E_FOAM_STORAGE),
        );
        let mut external: Vec<ExternalReplenisher> = Vec::new();
        external.push(ExternalReplenisher::new(Ingredient::HotWater, A_WATER_STORAGE));
        let r = CoffeeMaker {
            orders_queue: OrdersQueue::new(),
            resources,
            orders_processed: 0,
            dispensers,
            replenishers: Replenishers::new(containers, external),
            statistics_printer: StatisticsPrinter::new(),
        };
        proof {
            let s = r.resources@;
            assert(container_of(s, Ingredient::Cacao) == Container::new_spec(CONTAINER_CAPACITY));
            assert(container_of(s, Ingredient::GrainsToGrind) == Container::new_spec(
                CONTAINER_CAPACITY,
            ));
            assert(container_of(s, Ingredient::ColdMilk) == Container::new_spec(
                CONTAINER_CAPACITY,
            ));
            assert(container_of(s, Ingredient::GroundCoffee) == Container::new_spec(
                CONTAINER_CAPACITY,
            ));
            assert(container_of(s, Ingredient::MilkFoam) == Container::new_spec(
                CONTAINER_CAPACITY,
            ));
            assert(container_of(s, Ingredient::HotWater) == Container::new_spec(
                CONTAINER_CAPACITY,
            ));
        }
        r
    }

    /// Runs the machine on the orders of a file, given what reading it gave: its orders,
    /// or `None` if it could not be read or parsed. The orders are processed in file
    /// order, each with its ingredients in a random order; then the replenishers and the
    /// statistics printer are stopped. Returns what the reader returned.
    pub fn manage_orders(&mut self, contents: Option<Vec<JsonOrder>>) -> (r: Result<
        (),
        CoffeeMakerError,
    >)
        requires
            old(self).inv(),
            contents is Some ==> old(self).processed() + contents->0@.len() <= u64::MAX,
        ensures
            final(self).inv(),
            machine_ok(final(self).stock()),
            final(self).queue() == Seq::<Order>::empty(),
            final(self).queue_finished(),
            final(self).printer_finished(),
            final(self).container_replenishers() == old(self).container_replenishers(),
            final(self).external_replenishers() == old(self).external_replenishers(),
            contents is None ==> r == Err::<(), CoffeeMakerError>(
                CoffeeMakerError::FileReaderError,
            ) && final(self).processed() == old(self).processed() && final(self).stock()
                == shut_down(
                old(self).stock(),
                old(self).container_replenishers(),
                old(self).external_replenishers(),
            ),
            contents is Some ==> r is Ok && exists|orders: Seq<Order>|
                {
                    &&& #[trigger] read_as(orders, contents->0@)
                    &&& final(self).processed() == old(self).processed() + run_orders(
                        old(self).stock(),
                        old(self).container_replenishers(),
                        old(self).external_replenishers(),
                        orders,
                    ).1
                    &&& final(self).stock() == shut_down(
                        run_orders(
                            old(self).stock(),
                            old(self).container_replenishers(),
                            old(self).external_replenishers(),
                            orders,
                        ).0,
                        old(self).container_replenishers(),
                        old(self).external_replenishers(),
                    )
                },
    {
        let ghost cr = self.replenishers.containers@;
        let ghost er = self.replenishers.external@;
        let result = read_and_add_orders(&mut self.orders_queue, contents);
        let ghost orders = self.orders_queue@;
        proof {
            assert forall|k: int| 0 <= k < orders.len() implies orderable_order(
                #[trigger] orders[k],
            ) by {
                assert(order_from(orders[0 + k], k, contents->0@[k]));
            }
            lemma_run_orders(self.resources@, cr, er, orders);
            if contents is Some {
                assert(orders =~= self.orders_queue@.subrange(0, 0) + orders);
                assert forall|k: int| 0 <= k < orders.len() implies order_from(
                    #[trigger] orders[k],
                    k,
                    contents->0@[k],
                ) by {
                    assert(orders[k] == self.orders_queue@[0 + k]);
                }
            }
        }
        let mut k: usize = 0;
        while k < self.dispensers.len()
            invariant
                self.resources.wf(),
                self.resources.spec_capacity() == CONTAINER_CAPACITY,
                self.replenishers.containers@ == cr,
                self.replenishers.external@ == er,
                machine_container_replenishers(cr),
                machine_external_replenishers(er),
                self.replenishers.wf(CONTAINER_CAPACITY),
                self.orders_queue.spec_finished(),
                self.dispensers@.len() == N_DISPENSERS,
                k <= self.dispensers@.len(),
                k == 0 ==> self.orders_queue@ == orders && self.resources@ == old(
                    self,
                ).resources@ && self.orders_processed == old(self).orders_processed,
                k > 0 ==> self.orders_queue@.len() == 0 && self.resources@ == run_orders(
                    old(self).resources@,
                    cr,
                    er,
                    orders,
                ).0 && self.orders_processed == old(self).orders_processed + run_orders(
                    old(self).resources@,
                    cr,
                    er,
                    orders,
                ).1,
                run_orders(old(self).resources@, cr, er, orders).1 <= orders.len(),
                old(self).orders_processed + orders.len() <= u64::MAX,
            decreases self.dispensers@.len() - k,
        {
            let ghost before = self.resources@;
            let _ = self.dispensers[k].handle_orders(
                &mut self.orders_queue,
                &mut self.resources,
                &self.replenishers,
                &mut self.orders_processed,
            );
            proof {
                if k > 0 {
                    assert(run_orders(before, cr, er, Seq::<Order>::empty()) == (before, 0nat));
                }
            }
            k = k + 1;
        }
        self.signal_replenishers_to_finish();
        self.statistics_printer.finish();
        proof {
            lemma_shut_down(run_orders(old(self).resources@, cr, er, orders).0, cr, er);
            if contents is Some {
                assert(read_as(orders, contents->0@));
                assert(self.orders_processed == old(self).orders_processed + run_orders(
                    old(self).resources@,
                    cr,
                    er,
                    orders,
                ).1);
                assert(self.resources@ == shut_down(
                    run_orders(old(self).resources@, cr, er, orders).0,
                    cr,
                    er,
                ));
            }
        }
        result
    }

    /// Tells every replenisher to stop.
    fn signal_replenishers_to_finish(&mut self)
        requires
            old(self).resources.wf(),
        ensures
            final(self).resources.wf(),
            final(self).resources.spec_capacity() == old(self).resources.spec_capacity(),
            final(self).resources@ == shut_down(
                old(self).resources@,
                old(self).replenishers.containers@,
                old(self).replenishers.external@,
            ),
            final(self).replenishers == old(self).replenishers,
            final(self).orders_queue == old(self).orders_queue,
            final(self).orders_processed == old(self).orders_processed,
            final(self).dispensers == old(self).dispensers,
            final(self).statistics_printer == old(self).statistics_printer,
    {
        self.replenishers.finish_all(&mut self.resources);
    }

    /// Number of orders whose every ingredient was drawn.
    pub fn orders_processed(&self) -> (r: u64)
        ensures
            r == self.processed(),
    {
        self.orders_processed
    }

    /// The container of `ingredient`.
    pub fn container(&self, ingredient: Ingredient) -> (r: Container)
        requires
            self.inv(),
        ensures
            r == container_of(self.stock(), ingredient),
    {
        self.resources.get(ingredient)
    }

    /// Whether no order is waiting.
    pub fn is_queue_empty(&self) -> (r: bool)
        ensures
            r == (self.queue().len() == 0),
    {
        self.orders_queue.is_empty()
    }

    /// Whether no more orders will come.
    pub fn is_queue_finished(&self) -> (r: bool)
        ensures
            r == self.queue_finished(),
    {
        self.orders_queue.is_finished()
    }

    /// The statistics report of the machine as it stands, and whether the printer
    /// goes on reporting.
    pub fn statistics_report(&self) -> (r: (Vec<String>, bool))
        requires
            self.inv(),
        ensures
            r.0@.map_values(|l: String| l@) == seq![
                statistics_text(self.processed(), self.stock().containers),
            ] + warnings_text(self.stock().containers, TOTAL_INGREDIENTS as nat),
            r.1 == !self.printer_finished(),
    {
        self.statistics_printer.process_statistics(self.orders_processed, &self.resources)
    }
}

} // verus!
