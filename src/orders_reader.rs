//! Turns the orders read from a file into queued orders.
use rand::seq::SliceRandom;
use vstd::prelude::*;

use crate::errors::CoffeeMakerError;
use crate::order::{Ingredient, Order, orderable};
use crate::orders_queue::OrdersQueue;

verus! {

/// One order as the orders file writes it: a quantity of each ingredient that an
/// order can ask for, zero where it asks for none.
#[derive(Debug, Clone, Copy, PartialEq, Eq, Structural)]
pub struct JsonOrder {
    pub ground_coffee: u64,
    pub hot_water: u64,
    pub cacao: u64,
    pub milk_foam: u64,
}

/// `s` with `(i, q)` appended when `q` is not zero.
pub open spec fn push_nonzero(s: Seq<(Ingredient, u64)>, i: Ingredient, q: u64) -> Seq<
    (Ingredient, u64),
> {
    if 0 < q {
        s.push((i, q))
    } else {
        s
    }
}

/// The ingredients that `j` asks for, each with its quantity, those with zero left out.
pub open spec fn requested(j: JsonOrder) -> Seq<(Ingredient, u64)> {
    push_nonzero(
        push_nonzero(
            push_nonzero(
                push_nonzero(Seq::empty(), Ingredient::GroundCoffee, j.ground_coffee),
                Ingredient::Cacao,
                j.cacao,
            ),
            Ingredient::HotWater,
            j.hot_water,
        ),
        Ingredient::MilkFoam,
        j.milk_foam,
    )
}

/// Every ingredient of `o` can be asked for in a file, in a quantity above zero.
pub open spec fn orderable_order(o: Order) -> bool {
    forall|k: int|
        0 <= k < o.ingredients@.len() ==> orderable((#[trigger] o.ingredients@[k]).0)
            && o.ingredients@[k].1 > 0
}

/// `o` is the order with id `id` made from `j`: the same ingredients and quantities,
/// in some order.
pub open spec fn order_from(o: Order, id: int, j: JsonOrder) -> bool {
    &&& o.id == id
    &&& o.ingredients@.to_multiset() == requested(j).to_multiset()
    &&& orderable_order(o)
}

/// Relies on rand's `SliceRandom::shuffle` with `rand::thread_rng`: it only swaps
/// items, so the result is a permutation of the input. (`thread_rng` panics if the
/// operating system gives no seed.)
#[verifier::external_body]
fn shuffle_ingredients(ingredients: &mut Vec<(Ingredient, u64)>)
    ensures
        final(ingredients)@.to_multiset() == old(ingredients)@.to_multiset(),
{
    ingredients.shuffle(&mut rand::thread_rng());
}

/// The ingredients that `order` asks for, zero quantities left out, in a uniformly
/// random order.
pub fn get_ingredients_from_order(order: JsonOrder) -> (r: Vec<(Ingredient, u64)>)
    ensures
        r@.to_multiset() == requested(order).to_multiset(),
        forall|k: int|
            0 <= k < r@.len() ==> orderable((#[trigger] r@[k]).0) && r@[k].1 > 0,
{
    let mut ingredients: Vec<(Ingredient, u64)> = Vec::new();
    if 0 < order.ground_coffee {
        ingredients.push((Ingredient::GroundCoffee, order.ground_coffee));
    }
    if 0 < order.cacao {
        ingredients.push((Ingredient::Cacao, order.cacao));
    }
    if 0 < order.hot_water {
        ingredients.push((Ingredient::HotWater, order.hot_water));
    }
    if 0 < order.milk_foam {
        ingredients.push((Ingredient::MilkFoam, order.milk_foam));
    }
    assert(ingredients@ == requested(order));
    let ghost before = ingredients@;
    assert(forall|k: int|
        0 <= k < before.len() ==> orderable((#[trigger] before[k]).0) && before[k].1 > 0);
    shuffle_ingredients(&mut ingredients);
    proof {
        assert forall|k: int| 0 <= k < ingredients@.len() implies orderable(
            (#[trigger] ingredients@[k]).0,
        ) && ingredients@[k].1 > 0 by {
            let x = ingredients@[k];
            ingredients@.to_multiset_ensures();
            before.to_multiset_ensures();
            assert(ingredients@.contains(x));
            assert(ingredients@.to_multiset().count(x) > 0);
            assert(before.to_multiset().count(x) > 0);
            assert(before.contains(x));
        }
    }
    ingredients
}

/// Queues one order for each of `json_orders`, with ids from 0 in file order, then
/// records that no more orders will come.
pub fn add_orders_to_list(json_orders: Vec<JsonOrder>, queue: &mut OrdersQueue)
    ensures
        final(queue)@.len() == old(queue)@.len() + json_orders@.len(),
        final(queue)@.subrange(0, old(queue)@.len() as int) == old(queue)@,
        forall|k: int|
            0 <= k < json_orders@.len() ==> order_from(
                #[trigger] final(queue)@[old(queue)@.len() + k],
                k,
                json_orders@[k],
            ),
        final(queue).spec_finished(),
{
    let ghost start = queue@;
    let mut id: usize = 0;
    while id < json_orders.len()
        invariant
            id <= json_orders@.len(),
            queue@.len() == start.len() + id,
            queue@.subrange(0, start.len() as int) == start,
            forall|k: int|
                0 <= k < id ==> order_from(#[trigger] queue@[start.len() + k], k, json_orders@[k]),
        decreases json_orders@.len() - id,
    {
        let ingredients = get_ingredients_from_order(json_orders[id]);
        let order = Order::new(id, ingredients);
        let ghost prev = queue@;
        queue.push(order);
        assert(queue@.subrange(0, start.len() as int) =~= prev.subrange(0, start.len() as int));
        assert(forall|k: int| 0 <= k < id ==> #[trigger] queue@[start.len() + k] == prev[start.len() + k]);
        id = id + 1;
    }
    queue.mark_finished();
}

/// Queues the orders of a file, given what reading it gave: its orders, or `None` if it
/// could not be read or parsed. Either way no more orders will come afterwards.
pub fn read_and_add_orders(queue: &mut OrdersQueue, contents: Option<Vec<JsonOrder>>) -> (r:
    Result<(), CoffeeMakerError>)
    ensures
        final(queue).spec_finished(),
        contents is None ==> r == Err::<(), CoffeeMakerError>(CoffeeMakerError::FileReaderError)
            && final(queue)@ == old(queue)@,
        contents is Some ==> r is Ok && final(queue)@.len() == old(queue)@.len()
            + contents->0@.len() && final(queue)@.subrange(0, old(queue)@.len() as int) == old(
            queue,
        )@ && forall|k: int|
            0 <= k < contents->0@.len() ==> order_from(
                #[trigger] final(queue)@[old(queue)@.len() + k],
                k,
                contents->0@[k],
            ),
{
    match contents {
        Some(json_orders) => {
            add_orders_to_list(json_orders, queue);
            Ok(())
        },
        None => handle_error_with_file(queue),
    }
}

/// Records that no orders will come and reports the file as unreadable.
pub fn handle_error_with_file(queue: &mut OrdersQueue) -> (r: Result<(), CoffeeMakerError>)
    ensures
        final(queue).spec_finished(),
        final(queue)@ == old(queue)@,
        r == Err::<(), CoffeeMakerError>(CoffeeMakerError::FileReaderError),
{
    queue.mark_finished();
    Err(CoffeeMakerError::FileReaderError)
}

} // verus!
