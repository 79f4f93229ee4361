use coffee_maker::errors::CoffeeMakerError;
use coffee_maker::order::Ingredient;
use coffee_maker::orders_queue::OrdersQueue;
use coffee_maker::orders_reader::{
    add_orders_to_list, get_ingredients_from_order, handle_error_with_file, read_and_add_orders,
    JsonOrder,
};

#[test]
fn should_get_the_ingredients_from_the_json_order() {
    let ingredients = get_ingredients_from_order(JsonOrder {
        ground_coffee: 10,
        hot_water: 20,
        cacao: 30,
        milk_foam: 40,
    });
    assert_eq!(false, ingredients.is_empty());
    assert_eq!(4, ingredients.len());
    let mut quantities = [0; 4];
    for (i, quantity) in ingredients {
        match i {
            Ingredient::Cacao => {
                quantities[0] = quantity;
            }
            Ingredient::HotWater => {
                quantities[1] = quantity;
            }
            Ingredient::GroundCoffee => {
                quantities[2] = quantity;
            }
            Ingredient::MilkFoam => {
                quantities[3] = quantity;
            }
            _ => panic!("Failed to get ingredients from json order"),
        }
    }
    assert_eq!([30, 20, 10, 40], quantities);
}

#[test]
fn should_get_the_ingredients_from_the_json_order_when_there_are_some_missing() {
    let ingredients = get_ingredients_from_order(JsonOrder {
        ground_coffee: 10,
        hot_water: 0,
        cacao: 30,
        milk_foam: 0,
    });
    assert_eq!(false, ingredients.is_empty());
    assert_eq!(2, ingredients.len());
    let mut quantities = [0; 2];
    for (i, quantity) in ingredients {
        match i {
            Ingredient::Cacao => {
                quantities[0] = quantity;
            }
            Ingredient::GroundCoffee => {
                quantities[1] = quantity;
            }
            _ => panic!("Failed to get ingredients from json order"),
        }
    }
    assert_eq!([30, 10], quantities);
}

#[test]
fn should_add_the_orders_to_the_queue() {
    let mut json_orders = Vec::new();
    json_orders.push(JsonOrder {
        ground_coffee: 10,
        hot_water: 0,
        cacao: 30,
        milk_foam: 0,
    });
    json_orders.push(JsonOrder {
        ground_coffee: 100,
        hot_water: 200,
        cacao: 300,
        milk_foam: 400,
    });

    let mut queue = OrdersQueue::new();
    add_orders_to_list(json_orders, &mut queue);

    assert!(queue.finished);
    let first = queue.pop();
    assert!(first.is_some());
    let second = queue.pop();
    assert!(second.is_some());
    assert!(queue.pop().is_none());
    let first = first.expect("Test error");
    let second = second.expect("Test error");
    assert_eq!(0, first.id);
    assert_eq!(2, first.ingredients.len());
    assert_eq!(1, second.id);
    assert_eq!(4, second.ingredients.len());
}

/// A file that does not exist reads as nothing.
#[test]
fn should_return_file_error_if_the_file_does_not_exists() {
    let mut queue = OrdersQueue::new();
    let result = read_and_add_orders(&mut queue, None);
    assert!(result.is_err());
    assert_eq!(CoffeeMakerError::FileReaderError, result.err().expect("Fail test"));
    assert!(queue.finished);
}

/// A file in the wrong format reads as nothing.
#[test]
fn should_return_file_error_if_the_files_format_is_wrong() {
    let mut queue = OrdersQueue::new();
    let result = read_and_add_orders(&mut queue, None);
    assert!(result.is_err());
    assert_eq!(CoffeeMakerError::FileReaderError, result.err().expect("Fail test"));
    assert!(queue.is_empty());
}

#[test]
fn read_orders_are_queued_and_the_queue_finished() {
    let mut queue = OrdersQueue::new();
    let result = read_and_add_orders(
        &mut queue,
        Some(vec![JsonOrder { ground_coffee: 0, hot_water: 0, cacao: 0, milk_foam: 5 }]),
    );
    assert_eq!(Ok(()), result);
    assert!(queue.is_finished());
    let order = queue.pop().expect("one order");
    assert_eq!(vec![(Ingredient::MilkFoam, 5)], order.ingredients);
}

#[test]
fn unreadable_file_finishes_the_queue() {
    let mut queue = OrdersQueue::new();
    assert_eq!(Err(CoffeeMakerError::FileReaderError), handle_error_with_file(&mut queue));
    assert!(queue.is_finished());
}

#[test]
fn an_order_asking_for_nothing_has_no_ingredients() {
    let ingredients = get_ingredients_from_order(JsonOrder {
        ground_coffee: 0,
        hot_water: 0,
        cacao: 0,
        milk_foam: 0,
    });
    assert!(ingredients.is_empty());
}

#[test]
fn ingredients_come_in_a_random_order() {
    let mut orders_seen = std::collections::HashSet::new();
    for _ in 0..200 {
        let ingredients = get_ingredients_from_order(JsonOrder {
            ground_coffee: 1,
            hot_water: 2,
            cacao: 3,
            milk_foam: 4,
        });
        let kinds: Vec<Ingredient> = ingredients.iter().map(|(i, _)| *i).collect();
        orders_seen.insert(format!("{:?}", kinds));
    }
    assert!(orders_seen.len() > 1);
}
