use vstd::prelude::*;
use crate::account::Account;
use crate::codec::{holds_record, stored_count, stored_owner};
use crate::derivation::counter_address;
use crate::error::CounterError;
use crate::identity::zero_identity;
use crate::instruction::{decoded_instruction, Instruction};
use crate::processor::{process_outcome, Action};

verus! {

/// Initialize cannot run twice for one owner. Once a first Initialize has
/// succeeded and the host has created the counter account as asked (owned by
/// the program, whose id is not all zeros), a second Initialize by the same
/// signer on that account fails with `CounterIsAlreadyInitialized` and leaves
/// every account, the stored record included, as it was.
pub proof fn initialize_twice_is_rejected(
    program_id: Seq<u8>,
    data: Seq<u8>,
    first: Seq<Account>,
    first_result: Result<Action, CounterError>,
    first_after: Seq<Account>,
    second: Seq<Account>,
    second_result: Result<Action, CounterError>,
    second_after: Seq<Account>,
)
    requires
        program_id != zero_identity(),
        decoded_instruction(data) == Some(Instruction::InitializeCounter),
        process_outcome(program_id, first, data, first_result, first_after),
        first_result is Ok,
        second.len() >= 3,
        second[0].key@ == first[0].key@,
        second[1].key@ == first[1].key@,
        second[1].owner@ == program_id,
        process_outcome(program_id, second, data, second_result, second_after),
    ensures
        second_result == Err::<Action, CounterError>(CounterError::CounterIsAlreadyInitialized),
        second_after == second,
{
}

/// Initialize on an empty account whose address is not the one derived from
/// the signer fails with `InvalidPda` and changes no account.
pub proof fn initialize_requires_derived_address(
    program_id: Seq<u8>,
    data: Seq<u8>,
    before: Seq<Account>,
    result: Result<Action, CounterError>,
    after: Seq<Account>,
)
    requires
        decoded_instruction(data) == Some(Instruction::InitializeCounter),
        before.len() >= 3,
        counter_address(before[0].key@, program_id) is Some,
        before[1].key@ != counter_address(before[0].key@, program_id)->Some_0.0,
        before[1].owner@ == zero_identity(),
        process_outcome(program_id, before, data, result, after),
    ensures
        result == Err::<Action, CounterError>(CounterError::InvalidPda),
        after == before,
{
}

/// Increment by a signer other than the record's owner fails with
/// `UnauthorizedAccount` and leaves the stored count as it was.
pub proof fn increment_rejects_other_signer(
    program_id: Seq<u8>,
    data: Seq<u8>,
    before: Seq<Account>,
    result: Result<Action, CounterError>,
    after: Seq<Account>,
)
    requires
        decoded_instruction(data) == Some(Instruction::IncrementCounter),
        before.len() >= 2,
        before[1].owner@ == program_id,
        holds_record(before[1].data@),
        stored_owner(before[1].data@) != before[0].key@,
        process_outcome(program_id, before, data, result, after),
    ensures
        result == Err::<Action, CounterError>(CounterError::UnauthorizedAccount),
        after == before,
        stored_count(after[1].data@) == stored_count(before[1].data@),
{
}

/// Increment by the record's owner fails with `UnauthorizedAccount` when the
/// owner did not sign the request.
pub proof fn increment_rejects_non_signer(
    program_id: Seq<u8>,
    data: Seq<u8>,
    before: Seq<Account>,
    result: Result<Action, CounterError>,
    after: Seq<Account>,
)
    requires
        decoded_instruction(data) == Some(Instruction::IncrementCounter),
        before.len() >= 2,
        before[1].owner@ == program_id,
        holds_record(before[1].data@),
        stored_owner(before[1].data@) == before[0].key@,
        !before[0].is_signer,
        process_outcome(program_id, before, data, result, after),
    ensures
        result == Err::<Action, CounterError>(CounterError::UnauthorizedAccount),
        after == before,
{
}

/// An authorized Increment on a count of 255 fails with `CounterOverflow`
/// and leaves the count at 255: the counter never wraps.
pub proof fn increment_never_wraps(
    program_id: Seq<u8>,
    data: Seq<u8>,
    before: Seq<Account>,
    result: Result<Action, CounterError>,
    after: Seq<Account>,
)
    requires
        decoded_instruction(data) == Some(Instruction::IncrementCounter),
        before.len() >= 2,
        before[1].owner@ == program_id,
        holds_record(before[1].data@),
        stored_owner(before[1].data@) == before[0].key@,
        before[0].is_signer,
        stored_count(before[1].data@) == 255,
        process_outcome(program_id, before, data, result, after),
    ensures
        result == Err::<Action, CounterError>(CounterError::CounterOverflow),
        after == before,
        stored_count(after[1].data@) == 255,
{
}

/// An authorized Increment below 255 raises the stored count by one and keeps
/// the stored owner.
pub proof fn increment_adds_one(
    program_id: Seq<u8>,
    data: Seq<u8>,
    before: Seq<Account>,
    result: Result<Action, CounterError>,
    after: Seq<Account>,
)
    requires
        decoded_instruction(data) == Some(Instruction::IncrementCounter),
        before.len() >= 2,
        before[1].owner@ == program_id,
        holds_record(before[1].data@),
        stored_owner(before[1].data@) == before[0].key@,
        before[0].is_signer,
        stored_count(before[1].data@) < 255,
        process_outcome(program_id, before, data, result, after),
    ensures
        result == Ok::<Action, CounterError>(Action::Done),
        stored_count(after[1].data@) == stored_count(before[1].data@) + 1,
        stored_owner(after[1].data@) == stored_owner(before[1].data@),
        after[1].owner == before[1].owner,
{
    assert(stored_owner(after[1].data@) =~= stored_owner(before[1].data@));
}

} // verus!
