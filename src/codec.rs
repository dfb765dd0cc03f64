use vstd::prelude::*;
use crate::error::CounterError;
use crate::identity::{Identity, IDENTITY_LEN};

verus! {

/// Size of the counter record: the owner's 32 bytes, then the one-byte count.
pub const COUNTER_SIZE: usize = 33;

/// The structured view of a counter account's data.
#[derive(Clone, Copy, Debug)]
pub struct Counter {
    pub owner: Identity,
    pub count: u8,
}

/// The bytes of a record: the owner's key, then the count.
pub open spec fn encode_counter(owner: Seq<u8>, count: u8) -> Seq<u8> {
    owner.push(count)
}

/// The owner's key that a buffer holds in its first 32 bytes.
pub open spec fn stored_owner(data: Seq<u8>) -> Seq<u8> {
    data.subrange(0, 32)
}

/// The count that a buffer holds in its 33rd byte.
pub open spec fn stored_count(data: Seq<u8>) -> u8 {
    data[32]
}

/// Whether a buffer is large enough to hold a record.
pub open spec fn holds_record(data: Seq<u8>) -> bool {
    data.len() >= COUNTER_SIZE
}

/// Reads the record at the front of `data`; fails with `MalformedAccountData`
/// when `data` is shorter than the record.
pub fn read_counter(data: &[u8]) -> (r: Result<Counter, CounterError>)
    ensures
        holds_record(data@) ==> r is Ok && r->Ok_0.owner@ == stored_owner(data@) && r->Ok_0.count
            == stored_count(data@),
        !holds_record(data@) ==> r == Err::<Counter, CounterError>(CounterError::MalformedAccountData),
{
    if data.len() < COUNTER_SIZE {
        return Err(CounterError::MalformedAccountData);
    }
    let mut owner: [u8; 32] = [0u8; 32];
    let mut i: usize = 0;
    while i < IDENTITY_LEN
        invariant
            i <= IDENTITY_LEN,
            data@.len() >= COUNTER_SIZE,
            owner@.len() == IDENTITY_LEN,
            forall|j: int| 0 <= j < i ==> owner@[j] == data@[j],
        decreases IDENTITY_LEN - i,
    {
        owner[i] = data[i];
        i = i + 1;
    }
    assert(owner@ =~= stored_owner(data@));
    Ok(Counter { owner: Identity::new(owner), count: data[32] })
}

/// Writes `counter` over the first 33 bytes of `data`, leaving the rest;
/// fails with `MalformedAccountData`, writing nothing, when `data` is shorter
/// than the record.
pub fn write_counter(data: &mut Vec<u8>, counter: &Counter) -> (r: Result<(), CounterError>)
    ensures
        holds_record(old(data)@) ==> r is Ok && final(data)@ == encode_counter(counter.owner@, counter.count)
            + old(data)@.subrange(33, old(data)@.len() as int),
        !holds_record(old(data)@) ==> r == Err::<(), CounterError>(CounterError::MalformedAccountData)
            && final(data)@ == old(data)@,
{
    if data.len() < COUNTER_SIZE {
        return Err(CounterError::MalformedAccountData);
    }
    let mut i: usize = 0;
    while i < IDENTITY_LEN
        invariant
            i <= IDENTITY_LEN,
            data@.len() == old(data)@.len(),
            old(data)@.len() >= COUNTER_SIZE,
            counter.owner@.len() == IDENTITY_LEN,
            forall|j: int| 0 <= j < i ==> data@[j] == counter.owner@[j],
            forall|j: int| i <= j < data@.len() ==> data@[j] == old(data)@[j],
        decreases IDENTITY_LEN - i,
    {
        data[i] = counter.owner.bytes[i];
        i = i + 1;
    }
    data[32] = counter.count;
    assert(data@ =~= encode_counter(counter.owner@, counter.count) + old(data)@.subrange(
        33,
        old(data)@.len() as int,
    ));
    Ok(())
}

/// Decoding what was encoded gives back the owner and the count.
pub proof fn decode_after_encode(owner: Seq<u8>, count: u8, rest: Seq<u8>)
    requires
        owner.len() == IDENTITY_LEN,
    ensures
        holds_record(encode_counter(owner, count) + rest),
        stored_owner(encode_counter(owner, count) + rest) == owner,
        stored_count(encode_counter(owner, count) + rest) == count,
{
    assert(stored_owner(encode_counter(owner, count) + rest) =~= owner);
}

} // verus!
