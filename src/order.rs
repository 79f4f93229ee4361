//! Ingredients and orders.
use vstd::prelude::*;

verus! {

/// Number of distinct ingredients that the machine handles.
pub const TOTAL_INGREDIENTS: usize = 6;

/// The ingredients that the machine handles.
#[derive(Debug, Clone, Copy, PartialEq, Eq, Hash, Structural)]
pub enum Ingredient {
    GroundCoffee,
    HotWater,
    Cacao,
    MilkFoam,
    GrainsToGrind,
    ColdMilk,
}

/// Position of an ingredient's container among the machine's containers.
pub open spec fn ingredient_slot(i: Ingredient) -> int {
    match i {
        Ingredient::GroundCoffee => 0,
        Ingredient::HotWater => 1,
        Ingredient::Cacao => 2,
        Ingredient::MilkFoam => 3,
        Ingredient::GrainsToGrind => 4,
        Ingredient::ColdMilk => 5,
    }
}

/// The ingredient whose container stands at position `k`.
pub open spec fn ingredient_at(k: int) -> Ingredient {
    if k == 0 {
        Ingredient::GroundCoffee
    } else if k == 1 {
        Ingredient::HotWater
    } else if k == 2 {
        Ingredient::Cacao
    } else if k == 3 {
        Ingredient::MilkFoam
    } else if k == 4 {
        Ingredient::GrainsToGrind
    } else {
        Ingredient::ColdMilk
    }
}

/// Whether some replenisher refills the container of `i`.
pub open spec fn has_replenisher(i: Ingredient) -> bool {
    i == Ingredient::MilkFoam || i == Ingredient::GroundCoffee || i == Ingredient::HotWater
}

/// Whether an order read from a file can ask for `i`: the source reservoirs cannot.
pub open spec fn orderable(i: Ingredient) -> bool {
    i != Ingredient::GrainsToGrind && i != Ingredient::ColdMilk
}

pub proof fn lemma_slot_bounds(i: Ingredient)
    ensures
        0 <= ingredient_slot(i) < TOTAL_INGREDIENTS,
        ingredient_at(ingredient_slot(i)) == i,
{
}

impl Ingredient {
    /// Position of this ingredient's container.
    pub fn slot(&self) -> (r: usize)
        ensures
            r == ingredient_slot(*self),
            r < TOTAL_INGREDIENTS,
    {
        match self {
            Ingredient::GroundCoffee => 0,
            Ingredient::HotWater => 1,
            Ingredient::Cacao => 2,
            Ingredient::MilkFoam => 3,
            Ingredient::GrainsToGrind => 4,
            Ingredient::ColdMilk => 5,
        }
    }

    /// The ingredient whose container stands at position `k`.
    pub fn at(k: usize) -> (r: Ingredient)
        requires
            k < TOTAL_INGREDIENTS,
        ensures
            r == ingredient_at(k as int),
            ingredient_slot(r) == k,
    {
        if k == 0 {
            Ingredient::GroundCoffee
        } else if k == 1 {
            Ingredient::HotWater
        } else if k == 2 {
            Ingredient::Cacao
        } else if k == 3 {
            Ingredient::MilkFoam
        } else if k == 4 {
            Ingredient::GrainsToGrind
        } else {
            Ingredient::ColdMilk
        }
    }
}

/// Whether nothing ever refills the container of `ingredient`.
pub fn has_no_replenisher(ingredient: &Ingredient) -> (r: bool)
    ensures
        r == !has_replenisher(*ingredient),
{
    match ingredient {
        Ingredient::Cacao | Ingredient::GrainsToGrind | Ingredient::ColdMilk => true,
        _ => false,
    }
}

/// A beverage order: an id and the quantity of each ingredient that it needs,
/// in the order in which they are drawn.
#[derive(Debug)]
pub struct Order {
    pub id: usize,
    pub ingredients: Vec<(Ingredient, u64)>,
}

impl Order {
    pub fn new(id: usize, ingredients: Vec<(Ingredient, u64)>) -> (r: Order)
        ensures
            r.id == id,
            r.ingredients@ == ingredients@,
    {
        Order { id, ingredients }
    }
}

} // verus!
