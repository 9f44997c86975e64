//! What holds of the operations, proved over the model that their contracts
//! are stated in.

use vstd::prelude::*;
use crate::error::CounterError;
use crate::lifecycle::{
    create_result,
    increment_result,
    run,
    slot_after_create,
    slot_after_increment,
    Operation,
};
use crate::state::{count_after, Counter, INITIAL_COUNT};

verus! {

/// Creation succeeds on a vacant slot whose caller can pay, and on no other.
/// Wherever it succeeds, the slot then holds a record whose count is exactly
/// 100.
pub proof fn lemma_create_sets_initial_count(slot: Option<Counter>, can_fund: bool)
    ensures
        create_result(slot, can_fund) is Ok <==> slot is None && can_fund,
        create_result(slot, can_fund) is Ok ==> slot_after_create(slot, can_fund) == Some(
            Counter { count: 100 },
        ),
{
}

/// Creation on a slot that holds a record fails, whoever pays, and leaves
/// the record and its count as they were.
pub proof fn lemma_create_keeps_existing_record(record: Counter, can_fund: bool)
    ensures
        create_result(Some(record), can_fund) == Err::<(), CounterError>(
            CounterError::AlreadyAllocated,
        ),
        slot_after_create(Some(record), can_fund) == Some(record),
{
}

/// After one creation has succeeded on a slot, a second one on the same slot
/// fails, and the count is still the initial one.
pub proof fn lemma_no_double_create(slot: Option<Counter>, first: bool, second: bool)
    requires
        create_result(slot, first) is Ok,
    ensures
        create_result(slot_after_create(slot, first), second) == Err::<(), CounterError>(
            CounterError::AlreadyAllocated,
        ),
        slot_after_create(slot_after_create(slot, first), second) == Some(
            Counter { count: INITIAL_COUNT },
        ),
{
}

/// An increment whose sum fits in eight bits succeeds on every record and
/// sets its count to exactly that sum.
pub proof fn lemma_increment_adds(record: Counter, additional_count: u8)
    requires
        record.count + additional_count <= 255,
    ensures
        increment_result(Some(record)) is Ok,
        slot_after_increment(Some(record), additional_count) matches Some(next)
            && next.count == record.count + additional_count,
{
}

/// An increment whose sum does not fit in eight bits succeeds too, and sets
/// the count to zero: not to 255, and not to the sum modulo 256, unless that
/// is zero itself.
pub proof fn lemma_increment_resets_on_overflow(record: Counter, additional_count: u8)
    requires
        record.count + additional_count > 255,
    ensures
        increment_result(Some(record)) is Ok,
        slot_after_increment(Some(record), additional_count) == Some(Counter { count: 0 }),
{
}

/// The count after an increment is the exact sum or zero, and nothing else.
/// Adding zero changes nothing.
pub proof fn lemma_count_after_is_sum_or_zero(count: u8, additional_count: u8)
    ensures
        count_after(count, additional_count) == count + additional_count || count_after(
            count,
            additional_count,
        ) == 0,
        count_after(count, 0) == count,
{
}

/// An increment on a vacant slot fails and writes nothing.
pub proof fn lemma_increment_needs_record(additional_count: u8)
    ensures
        increment_result(None) == Err::<(), CounterError>(CounterError::MissingRecord),
        slot_after_increment(None, additional_count) == None::<Counter>,
{
}

/// Looking at a slot changes nothing, however often it is done.
pub proof fn lemma_reads_change_nothing(slot: Option<Counter>, operations: Seq<Operation>)
    requires
        forall|i: int| 0 <= i < operations.len() ==> operations[i] is Read,
    ensures
        run(slot, operations) == slot,
    decreases operations.len(),
{
    if operations.len() > 0 {
        lemma_reads_change_nothing(slot, operations.drop_last());
    }
}

/// Only an increment changes a record: after any operations among which
/// there is none, the record is as it was.
pub proof fn lemma_only_increment_changes_record(record: Counter, operations: Seq<Operation>)
    requires
        forall|i: int| 0 <= i < operations.len() ==> !(operations[i] is Increment),
    ensures
        run(Some(record), operations) == Some(record),
    decreases operations.len(),
{
    if operations.len() > 0 {
        lemma_only_increment_changes_record(record, operations.drop_last());
    }
}

/// A record is never removed: a slot that holds one holds one after any
/// operations.
pub proof fn lemma_record_persists(slot: Option<Counter>, operations: Seq<Operation>)
    requires
        slot is Some,
    ensures
        run(slot, operations) is Some,
    decreases operations.len(),
{
    if operations.len() > 0 {
        lemma_record_persists(slot, operations.drop_last());
    }
}

/// Only a creation that is paid for fills a vacant slot: after any
/// operations among which there is none, the slot is still vacant.
pub proof fn lemma_vacant_until_created(operations: Seq<Operation>)
    requires
        forall|i: int|
            0 <= i < operations.len() ==> operations[i] != (Operation::Create { can_fund: true }),
    ensures
        run(None, operations) == None::<Counter>,
    decreases operations.len(),
{
    if operations.len() > 0 {
        lemma_vacant_until_created(operations.drop_last());
    }
}

} // verus!
