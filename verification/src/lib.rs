//! A persistent counter: one eight-bit count per storage slot.
//!
//! A slot is either vacant or holds a [`Counter`]. [`initialize`] fills a
//! vacant slot with a record whose count is [`INITIAL_COUNT`]; [`increment`]
//! adds to the count of an existing record and starts again from zero when
//! the sum would leave the range of the count. Both are total functions of
//! the slot and their arguments: a failed operation leaves everything as it
//! was, so a host can commit the result or discard it as a whole.

pub mod accounts;
pub mod error;
pub mod instructions;
pub mod laws;
pub mod lifecycle;
pub mod state;

pub use accounts::{Increment, Initialize, Payer, HEADER_LEN, SPACE};
pub use error::CounterError;
pub use instructions::{increment, initialize};
pub use state::{Counter, INITIAL_COUNT};
