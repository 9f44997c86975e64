//! The two operations.

use vstd::prelude::*;
use crate::accounts::{Increment, Initialize};
use crate::error::CounterError;
use crate::lifecycle::{create_result, increment_result, slot_after_create, slot_after_increment};
use crate::state::{Counter, INITIAL_COUNT};

verus! {

/// Creates the record of `ctx.counter` with a count of `INITIAL_COUNT`.
///
/// Fails with `AlreadyAllocated` where the slot holds a record, whoever
/// pays, and with `InsufficientFunds` where it is vacant and the caller
/// cannot pay. A failure leaves `ctx` as it was: an existing record is never
/// overwritten.
pub fn initialize(ctx: &mut Initialize) -> (res: Result<(), CounterError>)
    ensures
        res == create_result(old(ctx).counter, old(ctx).user.can_fund),
        final(ctx).counter == slot_after_create(old(ctx).counter, old(ctx).user.can_fund),
        final(ctx).user == old(ctx).user,
        res is Ok ==> final(ctx).counter == Some(Counter { count: 100 }),
        res is Err ==> *final(ctx) == *old(ctx),
{
    if ctx.counter.is_some() {
        return Err(CounterError::AlreadyAllocated);
    }
    if !ctx.user.can_fund {
        return Err(CounterError::InsufficientFunds);
    }
    ctx.counter = Some(Counter { count: INITIAL_COUNT });
    Ok(())
}

/// Adds `additional_count` to the count of the record in `ctx.counter`. A sum
/// above `u8::MAX` sets the count to zero, and the operation still succeeds.
///
/// Fails with `MissingRecord`, and writes nothing, where the slot holds no
/// record. There is no other failure.
pub fn increment(ctx: &mut Increment, additional_count: u8) -> (res: Result<(), CounterError>)
    ensures
        res == increment_result(old(ctx).counter),
        final(ctx).counter == slot_after_increment(old(ctx).counter, additional_count),
        res is Err ==> *final(ctx) == *old(ctx),
{
    match ctx.counter {
        Some(counter) => {
            ctx.counter = Some(counter.incremented(additional_count));
            Ok(())
        },
        None => Err(CounterError::MissingRecord),
    }
}

} // verus!
