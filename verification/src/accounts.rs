//! What each operation is handed: the slot it works on and, for creation,
//! the caller who pays.

use vstd::prelude::*;
use crate::state::Counter;

verus! {

/// The bytes that the host puts in front of every record.
pub const HEADER_LEN: usize = 8;

/// The storage that one record takes: the header and the one byte of its
/// count.
pub const SPACE: usize = HEADER_LEN + 1;

/// The caller who pays for the storage of a new record.
#[derive(Clone, Copy, Debug, PartialEq, Eq)]
pub struct Payer {
    /// Whether the host finds the caller able to pay for `SPACE` bytes.
    pub can_fund: bool,
}

/// The accounts of [`initialize`](crate::instructions::initialize).
#[derive(Clone, Copy, Debug, PartialEq, Eq)]
pub struct Initialize {
    /// The caller who pays for the record.
    pub user: Payer,
    /// The slot to create the record in: `None` while it is vacant.
    pub counter: Option<Counter>,
}

/// The accounts of [`increment`](crate::instructions::increment).
#[derive(Clone, Copy, Debug, PartialEq, Eq)]
pub struct Increment {
    /// The slot whose record is incremented: `None` if it holds none.
    pub counter: Option<Counter>,
}

} // verus!
