//! A coffee machine whose dispensers draw ingredients from finite containers
//! that replenishers refill, with every step of the machine verified.
pub mod coffee_maker;
pub mod constants;
pub mod container;
pub mod container_source_replenisher;
pub mod dispenser;
pub mod errors;
pub mod external_source_replenisher;
pub mod order;
pub mod orders_queue;
pub mod orders_reader;
pub mod replenishers;
pub mod resources;
pub mod statistics;
