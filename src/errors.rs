//! Errors of the machine.
use vstd::prelude::*;

verus! {

/// What can go wrong in the machine.
#[derive(Debug, Clone, Copy, PartialEq, Eq, Structural)]
pub enum CoffeeMakerError {
    /// An ingredient that an order needs has no container.
    IngredientNotInMap,
    /// A lock was poisoned by a holder that panicked.
    LockError,
    /// A dispenser that was woken for work found the queue empty while more orders may come.
    EmptyQueueWhenNotExpected,
    /// The orders file could not be read or does not have the expected format.
    FileReaderError,
}

} // verus!
