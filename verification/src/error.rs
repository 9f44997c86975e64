//! Why an operation on a slot was refused.

use vstd::prelude::*;

verus! {

/// The reasons for which an operation fails. A failed operation changes
/// nothing.
#[derive(Clone, Copy, Debug, PartialEq, Eq, Structural)]
pub enum CounterError {
    /// The slot to create a record in already holds one.
    AlreadyAllocated,
    /// The slot is vacant, but the caller cannot pay for its storage.
    InsufficientFunds,
    /// The slot to increment holds no record.
    MissingRecord,
}

} // verus!
