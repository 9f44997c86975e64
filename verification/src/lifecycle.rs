//! The life of one slot, as a state machine.
//!
//! A slot has two states: vacant (`None`) and holding a record (`Some`).
//! Creation is the only way out of the first; an increment keeps a slot in
//! the second; nothing leads back.

use vstd::prelude::*;
use crate::error::CounterError;
use crate::state::{count_after, Counter, INITIAL_COUNT};

verus! {

/// Whether creation succeeds on `slot`, and why not. An occupied slot is
/// refused whoever pays.
pub open spec fn create_result(slot: Option<Counter>, can_fund: bool) -> Result<(), CounterError> {
    if slot is Some {
        Err(CounterError::AlreadyAllocated)
    } else if !can_fund {
        Err(CounterError::InsufficientFunds)
    } else {
        Ok(())
    }
}

/// The slot after creation was tried on it: a fresh record where it
/// succeeded, the slot as it was where it failed.
pub open spec fn slot_after_create(slot: Option<Counter>, can_fund: bool) -> Option<Counter> {
    if create_result(slot, can_fund) is Ok {
        Some(Counter { count: INITIAL_COUNT })
    } else {
        slot
    }
}

/// Whether an increment succeeds on `slot`: it does on every record.
pub open spec fn increment_result(slot: Option<Counter>) -> Result<(), CounterError> {
    if slot is Some {
        Ok(())
    } else {
        Err(CounterError::MissingRecord)
    }
}

/// The slot after an increment by `additional_count` was tried on it.
pub open spec fn slot_after_increment(slot: Option<Counter>, additional_count: u8) -> Option<
    Counter,
> {
    match slot {
        Some(counter) => Some(Counter { count: count_after(counter.count, additional_count) }),
        None => None,
    }
}

/// One thing that can happen to a slot.
pub enum Operation {
    /// Creation, by a caller who can or cannot pay.
    Create { can_fund: bool },
    /// An increment by `additional_count`.
    Increment { additional_count: u8 },
    /// A look at the slot.
    Read,
}

/// The slot after `operation`, whether it succeeded or not.
pub open spec fn step(slot: Option<Counter>, operation: Operation) -> Option<Counter> {
    match operation {
        Operation::Create { can_fund } => slot_after_create(slot, can_fund),
        Operation::Increment { additional_count } => slot_after_increment(slot, additional_count),
        Operation::Read => slot,
    }
}

/// The slot after each of `operations` in turn.
pub open spec fn run(slot: Option<Counter>, operations: Seq<Operation>) -> Option<Counter>
    decreases operations.len(),
{
    if operations.len() == 0 {
        slot
    } else {
        step(run(slot, operations.drop_last()), operations.last())
    }
}

} // verus!
