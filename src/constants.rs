//! Configuration of the machine.
use vstd::prelude::*;

verus! {

/// Number of dispensers of the machine.
pub const N_DISPENSERS: usize = 10;

/// Initial capacity of every container.
pub const CONTAINER_CAPACITY: u64 = 5000;

/// Initial capacity of the grains to grind.
pub const G_GRAINS_STORAGE: u64 = 5000;

/// Initial capacity of the ground coffee.
pub const M_COFFEE_STORAGE: u64 = 5000;

/// Initial capacity of the cold milk.
pub const L_MILK_STORAGE: u64 = 5000;

/// Initial capacity of the milk foam.
pub const E_FOAM_STORAGE: u64 = 5000;

/// Initial capacity of the cacao.
pub const C_CACAO_STORAGE: u64 = 5000;

/// Initial capacity of the hot water.
pub const A_WATER_STORAGE: u64 = 5000;

/// Milliseconds between two statistics snapshots.
pub const STATISTICS_WAIT_IN_MS: u64 = 50;

/// Percentage of its capacity under which a bulk reservoir is reported as low.
pub const X_PERCENTAGE_OF_CAPACITY: u64 = 20;

/// Largest quantity of one ingredient that an order may ask for.
/// A replenisher refills its container once the container holds this much or less,
/// so that any single order can be served after a refill.
pub const MAX_OF_INGREDIENT_IN_AN_ORDER: u64 = 2500;

/// Minimum time, in milliseconds, that a refill takes.
pub const MINIMUM_WAIT_TIME_REPLENISHER: u64 = 100;

} // verus!
