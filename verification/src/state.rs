//! The record, and the arithmetic of its count.

use vstd::prelude::*;

verus! {

/// The count that every record starts with.
pub const INITIAL_COUNT: u8 = 100;

/// The record kept in a slot.
#[derive(Clone, Copy, Debug, PartialEq, Eq, Structural)]
pub struct Counter {
    pub count: u8,
}

/// The count that follows `count` when `additional_count` is added: their sum
/// where it fits in eight bits, and zero where it does not. An overflowing
/// sum neither wraps around nor stops at the maximum.
pub open spec fn count_after(count: u8, additional_count: u8) -> u8 {
    if count + additional_count <= u8::MAX {
        (count + additional_count) as u8
    } else {
        0
    }
}

impl Counter {
    /// The record as it is after `additional_count` has been added to it.
    pub fn incremented(self, additional_count: u8) -> (next: Counter)
        ensures
            next.count == count_after(self.count, additional_count),
    {
        Counter { count: self.count.checked_add(additional_count).unwrap_or_default() }
    }
}

} // verus!
