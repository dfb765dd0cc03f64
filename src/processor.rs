use vstd::prelude::*;
use crate::account::{verify_account_owner, Account};
use crate::codec::{
    decode_after_encode, encode_counter, holds_record, read_counter, stored_count, stored_owner,
    write_counter, Counter, COUNTER_SIZE,
};
use crate::derivation::{counter_address, counter_seed_list, counter_seeds, derive_counter_address};
use crate::error::CounterError;
use crate::identity::{zero_identity, Identity};
use crate::instruction::{decode_instruction, decoded_instruction, Instruction};

verus! {

/// What the host must do to create a counter account: allocate `space` bytes
/// at `address`, funded by `funder` to the minimum balance for that size,
/// owned by `owner`, and signed for by the derived authority whose seeds
/// (with the bump last) are `signer_seeds`.
#[derive(Debug)]
pub struct CreateAccountRequest {
    pub funder: Identity,
    pub address: Identity,
    pub space: u64,
    pub owner: Identity,
    pub signer_seeds: Vec<Vec<u8>>,
}

/// What is left for the host once an instruction has been processed.
#[derive(Debug)]
pub enum Action {
    /// Nothing: every change has been made to the accounts.
    Done,
    /// Create the counter account, then call `complete_initialize` on it.
    CreateAccount(CreateAccountRequest),
}

/// The request that creates the counter account at `address` for `signer`,
/// owned by `program_id` and signed for with `bump`.
pub open spec fn request_matches(
    req: CreateAccountRequest,
    program_id: Seq<u8>,
    signer: Seq<u8>,
    address: Seq<u8>,
    bump: u8,
) -> bool {
    &&& req.funder@ == signer
    &&& req.address@ == address
    &&& req.space == COUNTER_SIZE
    &&& req.owner@ == program_id
    &&& req.signer_seeds.deep_view() == counter_seeds(signer).push(seq![bump])
}

/// The preconditions of Initialize, in order: the counter account must not
/// exist yet (its declared owner is all zeros), and its address must be the
/// derived one.
pub open spec fn initialize_check(counter: Account, derived_address: Seq<u8>) -> Result<(), CounterError> {
    if counter.owner@ != zero_identity() {
        Err(CounterError::CounterIsAlreadyInitialized)
    } else if counter.key@ != derived_address {
        Err(CounterError::InvalidPda)
    } else {
        Ok(())
    }
}

/// Checks the preconditions of Initialize against the derived address and
/// bump `derived`, and on success asks for the counter account's creation.
pub fn check_initialize(
    program_id: &Identity,
    signer: &Account,
    counter: &Account,
    derived: (Identity, u8),
) -> (r: Result<CreateAccountRequest, CounterError>)
    ensures
        match initialize_check(*counter, derived.0@) {
            Ok(_) => r is Ok && request_matches(r->Ok_0, program_id@, signer.key@, derived.0@, derived.1),
            Err(e) => r is Err && r->Err_0 == e,
        },
{
    let (address, bump) = derived;
    if !counter.owner.is_zero() {
        return Err(CounterError::CounterIsAlreadyInitialized);
    }
    if !counter.key.same_as(&address) {
        return Err(CounterError::InvalidPda);
    }
    let mut signer_seeds = counter_seed_list(&signer.key);
    let bump_seed: Vec<u8> = vec![bump];
    signer_seeds.push(bump_seed);
    assert(signer_seeds@[2].deep_view() =~= seq![bump]);
    assert(signer_seeds.deep_view() =~= counter_seeds(signer.key@).push(seq![bump]));
    Ok(
        CreateAccountRequest {
            funder: signer.key,
            address: counter.key,
            space: 33,
            owner: *program_id,
            signer_seeds,
        },
    )
}

/// The header fields of an account are as before and its data is `data`.
pub open spec fn same_header_with_data(before: Account, after: Account, data: Seq<u8>) -> bool {
    &&& after.key == before.key
    &&& after.owner == before.owner
    &&& after.is_signer == before.is_signer
    &&& after.data@ == data
}

/// Writes the first record, owned by the request's funder with a count of 1,
/// into the newly created counter account. Fails with `MalformedAccountData`,
/// writing nothing, when the account's buffer is too small for it.
pub fn complete_initialize(request: &CreateAccountRequest, counter: &mut Account) -> (r: Result<(), CounterError>)
    ensures
        holds_record(old(counter).data@) ==> r is Ok && same_header_with_data(
            *old(counter),
            *final(counter),
            encode_counter(request.funder@, 1) + old(counter).data@.subrange(
                33,
                old(counter).data@.len() as int,
            ),
        ),
        holds_record(old(counter).data@) ==> stored_owner(final(counter).data@) == request.funder@
            && stored_count(final(counter).data@) == 1,
        !holds_record(old(counter).data@) ==> r == Err::<(), CounterError>(
            CounterError::MalformedAccountData,
        ) && *final(counter) == *old(counter),
{
    if counter.data.len() < COUNTER_SIZE {
        return Err(CounterError::MalformedAccountData);
    }
    let record = Counter { owner: request.funder, count: 1 };
    let r = write_counter(&mut counter.data, &record);
    proof {
        decode_after_encode(
            request.funder@,
            1,
            old(counter).data@.subrange(33, old(counter).data@.len() as int),
        );
    }
    r
}

/// The count that Increment stores, or the error it fails with, in the order
/// of its checks: the account belongs to the program, it holds a record, the
/// record's owner signed the request, and the count is below 255.
pub open spec fn increment_result(program_id: Seq<u8>, signer: Account, counter: Account) -> Result<u8, CounterError> {
    if counter.owner@ != program_id {
        Err(CounterError::Unauthorized)
    } else if !holds_record(counter.data@) {
        Err(CounterError::MalformedAccountData)
    } else if stored_owner(counter.data@) != signer.key@ || !signer.is_signer {
        Err(CounterError::UnauthorizedAccount)
    } else if stored_count(counter.data@) == 255 {
        Err(CounterError::CounterOverflow)
    } else {
        Ok((stored_count(counter.data@) + 1) as u8)
    }
}

/// Adds one to the count stored in `counter`, for its recorded owner. The
/// account is left as it was on every failure.
pub fn increment_counter(program_id: &Identity, signer: &Account, counter: &mut Account) -> (r: Result<(), CounterError>)
    ensures
        match increment_result(program_id@, *signer, *old(counter)) {
            Ok(n) => r is Ok && same_header_with_data(*old(counter), *final(counter), old(counter).data@.update(32, n)),
            Err(e) => r == Err::<(), CounterError>(e) && *final(counter) == *old(counter),
        },
{
    match verify_account_owner(counter, program_id) {
        Ok(_) => {},
        Err(e) => return Err(e),
    }
    let record = match read_counter(counter.data.as_slice()) {
        Ok(c) => c,
        Err(e) => return Err(e),
    };
    if !record.owner.same_as(&signer.key) || !signer.is_signer {
        return Err(CounterError::UnauthorizedAccount);
    }
    if record.count == 255 {
        return Err(CounterError::CounterOverflow);
    }
    counter.data.set(32, record.count + 1);
    Ok(())
}

/// What Initialize returns for the ordered accounts `[signer, counter,
/// system program, ..]`; it changes no account.
pub open spec fn initialize_outcome(program_id: Seq<u8>, accounts: Seq<Account>, r: Result<Action, CounterError>) -> bool {
    if accounts.len() < 2 {
        r == Err::<Action, CounterError>(CounterError::NotEnoughAccountKeys)
    } else {
        match counter_address(accounts[0].key@, program_id) {
            None => r == Err::<Action, CounterError>(CounterError::DerivationExhausted),
            Some(d) => if accounts.len() < 3 {
                r == Err::<Action, CounterError>(CounterError::NotEnoughAccountKeys)
            } else {
                match initialize_check(accounts[1], d.0) {
                    Err(e) => r == Err::<Action, CounterError>(e),
                    Ok(_) => r is Ok && r->Ok_0 is CreateAccount && request_matches(
                        r->Ok_0->CreateAccount_0,
                        program_id,
                        accounts[0].key@,
                        d.0,
                        d.1,
                    ),
                }
            },
        }
    }
}

/// What Increment returns and leaves in the ordered accounts `[signer,
/// counter, ..]`: on success the counter's count byte is the new count and
/// nothing else changed; on failure nothing changed.
pub open spec fn increment_outcome(
    program_id: Seq<u8>,
    before: Seq<Account>,
    r: Result<Action, CounterError>,
    after: Seq<Account>,
) -> bool {
    if before.len() < 2 {
        r == Err::<Action, CounterError>(CounterError::NotEnoughAccountKeys) && after == before
    } else {
        match increment_result(program_id, before[0], before[1]) {
            Err(e) => r == Err::<Action, CounterError>(e) && after == before,
            Ok(n) => {
                &&& r == Ok::<Action, CounterError>(Action::Done)
                &&& after.len() == before.len()
                &&& forall|i: int| 0 <= i < before.len() && i != 1 ==> after[i] == before[i]
                &&& same_header_with_data(before[1], after[1], before[1].data@.update(32, n))
            },
        }
    }
}

/// The contract of `process_instruction`: what it returns and what it leaves
/// in the accounts, for each instruction.
pub open spec fn process_outcome(
    program_id: Seq<u8>,
    before: Seq<Account>,
    data: Seq<u8>,
    r: Result<Action, CounterError>,
    after: Seq<Account>,
) -> bool {
    match decoded_instruction(data) {
        None => r == Err::<Action, CounterError>(CounterError::UnknownInstruction) && after == before,
        Some(Instruction::InitializeCounter) => after == before && initialize_outcome(program_id, before, r),
        Some(Instruction::IncrementCounter) => increment_outcome(program_id, before, r, after),
    }
}

/// Decodes the instruction in `instruction_data` and runs it on `accounts`,
/// read in a fixed order: Initialize reads the signer, the counter account
/// and the system program; Increment reads the signer and the counter
/// account. Increment makes its change in place; Initialize changes nothing
/// and hands back the account creation for the host to perform.
pub fn process_instruction(
    program_id: &Identity,
    accounts: &mut Vec<Account>,
    instruction_data: &[u8],
) -> (r: Result<Action, CounterError>)
    ensures
        process_outcome(program_id@, old(accounts)@, instruction_data@, r, final(accounts)@),
{
    let instruction = match decode_instruction(instruction_data) {
        Ok(i) => i,
        Err(e) => return Err(e),
    };
    match instruction {
        Instruction::InitializeCounter => {
            if accounts.len() < 2 {
                return Err(CounterError::NotEnoughAccountKeys);
            }
            let derived = match derive_counter_address(&accounts[0].key, program_id) {
                Ok(d) => d,
                Err(e) => return Err(e),
            };
            if accounts.len() < 3 {
                return Err(CounterError::NotEnoughAccountKeys);
            }
            match check_initialize(program_id, &accounts[0], &accounts[1], derived) {
                Ok(req) => Ok(Action::CreateAccount(req)),
                Err(e) => Err(e),
            }
        },
        Instruction::IncrementCounter => {
            if accounts.len() < 2 {
                return Err(CounterError::NotEnoughAccountKeys);
            }
            let mut counter = accounts.remove(1);
            let result = increment_counter(program_id, &accounts[0], &mut counter);
            accounts.insert(1, counter);
            proof {
                if result is Err {
                    assert(accounts@ =~= old(accounts)@);
                }
            }
            match result {
                Ok(()) => Ok(Action::Done),
                Err(e) => Err(e),
            }
        },
    }
}

} // verus!
