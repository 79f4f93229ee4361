use coffee_maker::constants::{A_WATER_STORAGE, E_FOAM_STORAGE, L_MILK_STORAGE};
use coffee_maker::container::Container;
use coffee_maker::container_source_replenisher::ContainerReplenisher;
use coffee_maker::external_source_replenisher::ExternalReplenisher;
use coffee_maker::order::Ingredient;
use coffee_maker::replenishers::Replenishers;
use coffee_maker::resources::Resources;

/// Quantities computed with every container starting at 5000.
#[test]
fn should_replenish_the_container_taking_resource_from_second_container_when_awaken() {
    let mut resources = Resources::new(E_FOAM_STORAGE);
    let milk_replenisher =
        ContainerReplenisher::new(Ingredient::ColdMilk, Ingredient::MilkFoam, E_FOAM_STORAGE);
    let mut foam = resources.get(Ingredient::MilkFoam);
    foam.remaining = 0;
    resources.set(Ingredient::MilkFoam, foam);

    milk_replenisher.replenish_container(&mut resources);

    assert_eq!(resources.get(Ingredient::MilkFoam).remaining, E_FOAM_STORAGE);
    let cold_milk = resources.get(Ingredient::ColdMilk);
    assert_eq!(cold_milk.remaining, 0);
    assert_eq!(cold_milk.consumed, L_MILK_STORAGE);
    // the source is empty: the destination will not be refilled again
    assert!(resources.get(Ingredient::MilkFoam).finished);

    milk_replenisher.finish(&mut resources);
    assert!(resources.get(Ingredient::MilkFoam).finished);
}

#[test]
fn should_replenish_the_container_when_awaken() {
    let mut resources = Resources::new(A_WATER_STORAGE);
    let water_replenisher = ExternalReplenisher::new(Ingredient::HotWater, A_WATER_STORAGE);
    let mut water = resources.get(Ingredient::HotWater);
    water.remaining = 0;
    resources.set(Ingredient::HotWater, water);

    water_replenisher.replenish_container(&mut resources);
    assert_eq!(resources.get(Ingredient::HotWater).remaining, A_WATER_STORAGE);
    assert!(!resources.get(Ingredient::HotWater).finished);

    water_replenisher.finish(&mut resources);
    assert!(resources.get(Ingredient::HotWater).finished);
}

#[test]
fn replenisher_stays_asleep_above_the_threshold() {
    let replenisher =
        ContainerReplenisher::new(Ingredient::GrainsToGrind, Ingredient::GroundCoffee, 5000);
    assert!(replenisher.should_wait(&Container { remaining: 2501, consumed: 0, finished: false }));
    assert!(!replenisher.should_wait(&Container { remaining: 2500, consumed: 0, finished: false }));
    assert!(!replenisher.should_wait(&Container { remaining: 4000, consumed: 0, finished: true }));
    let external = ExternalReplenisher::new(Ingredient::HotWater, 5000);
    assert!(external.should_wait(&Container { remaining: 3000, consumed: 0, finished: false }));
    assert!(!external.should_wait(&Container { remaining: 100, consumed: 0, finished: false }));
}

#[test]
fn partial_refill_drains_the_source_and_finishes_the_destination() {
    let replenisher =
        ContainerReplenisher::new(Ingredient::GrainsToGrind, Ingredient::GroundCoffee, 5000);
    let mut dest = Container { remaining: 1000, consumed: 4000, finished: false };
    let mut source = Container { remaining: 300, consumed: 4700, finished: false };
    let q = replenisher.replenish(&mut dest, &mut source);
    assert_eq!(300, q);
    assert_eq!(1300, dest.remaining);
    assert_eq!(4000, dest.consumed);
    assert!(dest.finished);
    assert_eq!(0, source.remaining);
    assert_eq!(5000, source.consumed);
}

#[test]
fn take_resource_from_source_fills_up_to_the_maximum() {
    let replenisher =
        ContainerReplenisher::new(Ingredient::ColdMilk, Ingredient::MilkFoam, 5000);
    let mut source = Container { remaining: 5000, consumed: 0, finished: false };
    let (q, empty) = replenisher.take_resource_from_source(&mut source, 1200);
    assert_eq!(3800, q);
    assert!(!empty);
    assert_eq!(1200, source.remaining);
    assert_eq!(3800, source.consumed);
}

#[test]
fn finished_destination_is_not_refilled() {
    let mut resources = Resources::new(5000);
    let mut foam = resources.get(Ingredient::MilkFoam);
    foam.remaining = 10;
    foam.finished = true;
    resources.set(Ingredient::MilkFoam, foam);
    let replenisher = ContainerReplenisher::new(Ingredient::ColdMilk, Ingredient::MilkFoam, 5000);
    replenisher.replenish_container(&mut resources);
    assert_eq!(10, resources.get(Ingredient::MilkFoam).remaining);
    assert_eq!(5000, resources.get(Ingredient::ColdMilk).remaining);
}

#[test]
fn finishing_twice_is_finishing_once() {
    let replenishers = Replenishers::new(
        vec![ContainerReplenisher::new(Ingredient::ColdMilk, Ingredient::MilkFoam, 5000)],
        vec![ExternalReplenisher::new(Ingredient::HotWater, 5000)],
    );
    let mut once = Resources::new(5000);
    replenishers.finish_all(&mut once);
    let mut twice = Resources::new(5000);
    replenishers.finish_all(&mut twice);
    replenishers.finish_all(&mut twice);
    for ingredient in [
        Ingredient::GroundCoffee,
        Ingredient::HotWater,
        Ingredient::Cacao,
        Ingredient::MilkFoam,
        Ingredient::GrainsToGrind,
        Ingredient::ColdMilk,
    ] {
        assert_eq!(once.get(ingredient), twice.get(ingredient));
    }
    assert!(once.get(Ingredient::MilkFoam).finished);
    assert!(once.get(Ingredient::HotWater).finished);
    assert!(!once.get(Ingredient::ColdMilk).finished);
}

#[test]
fn wake_all_refills_every_low_container() {
    let mut resources = Resources::new(5000);
    for ingredient in [Ingredient::GroundCoffee, Ingredient::MilkFoam, Ingredient::HotWater] {
        let mut c = resources.get(ingredient);
        c.remaining = 1000;
        c.consumed = 4000;
        resources.set(ingredient, c);
    }
    let replenishers = Replenishers::new(
        vec![
            ContainerReplenisher::new(Ingredient::GrainsToGrind, Ingredient::GroundCoffee, 5000),
            ContainerReplenisher::new(Ingredient::ColdMilk, Ingredient::MilkFoam, 5000),
        ],
        vec![ExternalReplenisher::new(Ingredient::HotWater, 5000)],
    );
    replenishers.wake_all(&mut resources);
    assert_eq!(5000, resources.get(Ingredient::GroundCoffee).remaining);
    assert_eq!(5000, resources.get(Ingredient::MilkFoam).remaining);
    assert_eq!(5000, resources.get(Ingredient::HotWater).remaining);
    assert_eq!(1000, resources.get(Ingredient::GrainsToGrind).remaining);
    assert_eq!(4000, resources.get(Ingredient::ColdMilk).consumed);
}
