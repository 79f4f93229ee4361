use coffee_maker::constants::{
    A_WATER_STORAGE, C_CACAO_STORAGE, CONTAINER_CAPACITY, E_FOAM_STORAGE, M_COFFEE_STORAGE,
};
use coffee_maker::container::Container;
use coffee_maker::container_source_replenisher::ContainerReplenisher;
use coffee_maker::dispenser::{DispenseOutcome, Dispenser};
use coffee_maker::errors::CoffeeMakerError;
use coffee_maker::external_source_replenisher::ExternalReplenisher;
use coffee_maker::order::{has_no_replenisher, Ingredient, Order};
use coffee_maker::orders_queue::OrdersQueue;
use coffee_maker::replenishers::Replenishers;
use coffee_maker::resources::Resources;

fn machine_replenishers() -> Replenishers {
    Replenishers::new(
        vec![
            ContainerReplenisher::new(
                Ingredient::GrainsToGrind,
                Ingredient::GroundCoffee,
                CONTAINER_CAPACITY,
            ),
            ContainerReplenisher::new(Ingredient::ColdMilk, Ingredient::MilkFoam, CONTAINER_CAPACITY),
        ],
        vec![ExternalReplenisher::new(Ingredient::HotWater, CONTAINER_CAPACITY)],
    )
}

/// Quantities computed with every container starting at 5000.
#[test]
fn should_process_an_order() {
    let mut resources = Resources::new(CONTAINER_CAPACITY);
    let replenishers = machine_replenishers();
    let mut orders_processed: u64 = 0;
    let dispenser = Dispenser::new(1);

    let result = dispenser.process_order(
        &mut resources,
        &replenishers,
        &mut orders_processed,
        Order::new(
            1,
            vec![(Ingredient::HotWater, 100), (Ingredient::GroundCoffee, 100)],
        ),
    );

    assert!(result);
    assert_eq!(1, orders_processed);

    let container = resources.get(Ingredient::HotWater);
    assert_eq!(A_WATER_STORAGE - 100, container.remaining);
    assert_eq!(100, container.consumed);

    let container = resources.get(Ingredient::GroundCoffee);
    assert_eq!(M_COFFEE_STORAGE - 100, container.remaining);
    assert_eq!(100, container.consumed);
}

/// Quantities computed with every container starting at 5000.
#[test]
fn should_skip_an_order_if_there_is_no_resource_left() {
    let mut resources = Resources::new(CONTAINER_CAPACITY);
    let replenishers = machine_replenishers();
    let mut orders_processed: u64 = 0;
    let dispenser = Dispenser::new(1);
    {
        let mut container = resources.get(Ingredient::Cacao);
        container.remaining = 0;
        container.consumed = C_CACAO_STORAGE;
        resources.set(Ingredient::Cacao, container);
    }

    let result = dispenser.process_order(
        &mut resources,
        &replenishers,
        &mut orders_processed,
        Order::new(
            1,
            vec![
                (Ingredient::HotWater, 100),
                (Ingredient::Cacao, 100),
                (Ingredient::MilkFoam, 100),
            ],
        ),
    );

    assert!(!result);
    assert_eq!(0, orders_processed);

    let container = resources.get(Ingredient::HotWater);
    assert_eq!(A_WATER_STORAGE - 100, container.remaining);
    assert_eq!(100, container.consumed);

    let container = resources.get(Ingredient::Cacao);
    assert_eq!(0, container.remaining);
    assert_eq!(C_CACAO_STORAGE, container.consumed);

    let container = resources.get(Ingredient::MilkFoam);
    assert_eq!(E_FOAM_STORAGE, container.remaining);
    assert_eq!(0, container.consumed);
}

#[test]
fn skip_on_the_first_ingredient_leaves_the_others_untouched() {
    let mut resources = Resources::new(CONTAINER_CAPACITY);
    let mut orders_processed: u64 = 0;
    let mut cacao = resources.get(Ingredient::Cacao);
    cacao.remaining = 50;
    resources.set(Ingredient::Cacao, cacao);
    let dispenser = Dispenser::new(0);
    let done = dispenser.process_order(
        &mut resources,
        &machine_replenishers(),
        &mut orders_processed,
        Order::new(3, vec![(Ingredient::Cacao, 60), (Ingredient::HotWater, 100)]),
    );
    assert!(!done);
    assert_eq!(0, orders_processed);
    assert_eq!(50, resources.get(Ingredient::Cacao).remaining);
    assert_eq!(A_WATER_STORAGE, resources.get(Ingredient::HotWater).remaining);
    assert_eq!(0, resources.get(Ingredient::HotWater).consumed);
}

#[test]
fn short_container_is_refilled_before_drawing() {
    let mut resources = Resources::new(CONTAINER_CAPACITY);
    let mut coffee = resources.get(Ingredient::GroundCoffee);
    coffee.remaining = 100;
    coffee.consumed = 4900;
    resources.set(Ingredient::GroundCoffee, coffee);
    let mut orders_processed: u64 = 0;
    let done = Dispenser::new(0).process_order(
        &mut resources,
        &machine_replenishers(),
        &mut orders_processed,
        Order::new(0, vec![(Ingredient::GroundCoffee, 300)]),
    );
    assert!(done);
    assert_eq!(1, orders_processed);
    let coffee = resources.get(Ingredient::GroundCoffee);
    assert_eq!(4700, coffee.remaining);
    assert_eq!(5200, coffee.consumed);
    let grains = resources.get(Ingredient::GrainsToGrind);
    assert_eq!(100, grains.remaining);
    assert_eq!(4900, grains.consumed);
}

#[test]
fn dispense_decides_wait_skip_or_consume() {
    let dispenser = Dispenser::new(2);
    let mut short = Container { remaining: 10, consumed: 0, finished: false };
    assert_eq!(
        DispenseOutcome::WaitForRefill,
        dispenser.dispense(&mut short, 20, Ingredient::MilkFoam)
    );
    assert_eq!(10, short.remaining);
    assert_eq!(
        DispenseOutcome::Skipped,
        dispenser.dispense(&mut short, 20, Ingredient::Cacao)
    );
    let mut finished = Container { remaining: 10, consumed: 0, finished: true };
    assert_eq!(
        DispenseOutcome::Skipped,
        dispenser.dispense(&mut finished, 20, Ingredient::MilkFoam)
    );
    assert_eq!(
        DispenseOutcome::Consumed,
        dispenser.dispense(&mut short, 10, Ingredient::Cacao)
    );
    assert_eq!(0, short.remaining);
    assert_eq!(10, short.consumed);
}

#[test]
fn only_reservoirs_and_cacao_have_no_replenisher() {
    assert!(has_no_replenisher(&Ingredient::Cacao));
    assert!(has_no_replenisher(&Ingredient::ColdMilk));
    assert!(has_no_replenisher(&Ingredient::GrainsToGrind));
    assert!(!has_no_replenisher(&Ingredient::MilkFoam));
    assert!(!has_no_replenisher(&Ingredient::GroundCoffee));
    assert!(!has_no_replenisher(&Ingredient::HotWater));
}

#[test]
fn handle_orders_on_an_open_empty_queue_is_an_error() {
    let mut queue = OrdersQueue::new();
    let mut resources = Resources::new(CONTAINER_CAPACITY);
    let mut orders_processed: u64 = 0;
    let result = Dispenser::new(0).handle_orders(
        &mut queue,
        &mut resources,
        &machine_replenishers(),
        &mut orders_processed,
    );
    assert_eq!(Err(CoffeeMakerError::EmptyQueueWhenNotExpected), result);
}

#[test]
fn handle_orders_drains_a_finished_queue() {
    let mut queue = OrdersQueue::new();
    queue.push(Order::new(0, vec![(Ingredient::Cacao, 10)]));
    queue.push(Order::new(1, vec![(Ingredient::Cacao, 20)]));
    queue.mark_finished();
    let mut resources = Resources::new(CONTAINER_CAPACITY);
    let mut orders_processed: u64 = 0;
    let result = Dispenser::new(0).handle_orders(
        &mut queue,
        &mut resources,
        &machine_replenishers(),
        &mut orders_processed,
    );
    assert_eq!(Ok(()), result);
    assert!(queue.is_empty());
    assert_eq!(2, orders_processed);
    assert_eq!(4970, resources.get(Ingredient::Cacao).remaining);
}

#[test]
fn consumed_total_stops_at_the_largest_value() {
    let mut c = Container { remaining: 10, consumed: u64::MAX - 3, finished: false };
    c.withdraw(5);
    assert_eq!(5, c.remaining);
    assert_eq!(u64::MAX, c.consumed);
    assert!(!c.is_empty());
    let full = Container::new(5000);
    assert_eq!(5000, full.remaining);
    assert_eq!(0, full.consumed);
    assert!(!full.finished);
}
