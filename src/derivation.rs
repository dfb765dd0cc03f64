use vstd::prelude::*;
use crate::error::CounterError;
use crate::identity::Identity;

verus! {

/// What the platform's program-address search yields for `seeds` under
/// `program_id`: the first off-curve address found, counting the bump down
/// from 255, with that bump; `None` when no bump gives one.
pub uninterp spec fn program_address(seeds: Seq<Seq<u8>>, program_id: Seq<u8>) -> Option<(Seq<u8>, u8)>;

/// The domain tag of the counter's derived address: the bytes of "counter".
pub open spec fn counter_tag() -> Seq<u8> {
    seq![99u8, 111u8, 117u8, 110u8, 116u8, 101u8, 114u8]
}

/// The seeds of the counter account of `owner`.
pub open spec fn counter_seeds(owner: Seq<u8>) -> Seq<Seq<u8>> {
    seq![owner, counter_tag()]
}

/// The derived address and bump of the counter account of `owner`.
pub open spec fn counter_address(owner: Seq<u8>, program_id: Seq<u8>) -> Option<(Seq<u8>, u8)> {
    program_address(counter_seeds(owner), program_id)
}

/// What a derivation call returned, seen as byte sequences.
pub open spec fn derived_view(r: Option<(Identity, u8)>) -> Option<(Seq<u8>, u8)> {
    match r {
        Some(p) => Some((p.0@, p.1)),
        None => None,
    }
}

/// Relies on `Pubkey::try_find_program_address`: a deterministic search over the
/// bump that hashes the seeds, the bump and the program id; it returns `None`
/// rather than panicking when no bump gives an off-curve address.
#[verifier::external_body]
fn try_find_program_address(seeds: &Vec<Vec<u8>>, program_id: &Identity) -> (r: Option<(Identity, u8)>)
    ensures
        derived_view(r) == program_address(seeds.deep_view(), program_id@),
{
    let refs: Vec<&[u8]> = seeds.iter().map(|s| s.as_slice()).collect();
    let program = solana_program::pubkey::Pubkey::new_from_array(program_id.bytes);
    solana_program::pubkey::Pubkey::try_find_program_address(&refs, &program)
        .map(|(address, bump)| (Identity::new(address.to_bytes()), bump))
}

/// The domain tag "counter" as bytes.
pub fn counter_seed() -> (r: Vec<u8>)
    ensures
        r@ == counter_tag(),
{
    let r: Vec<u8> = vec![99u8, 111u8, 117u8, 110u8, 116u8, 101u8, 114u8];
    assert(r@ =~= counter_tag());
    r
}

/// The two seeds of the counter account of `owner`: its key, then the tag.
pub fn counter_seed_list(owner: &Identity) -> (r: Vec<Vec<u8>>)
    ensures
        r@.len() == 2,
        r.deep_view() == counter_seeds(owner@),
{
    let mut r: Vec<Vec<u8>> = Vec::new();
    r.push(owner.to_vec());
    r.push(counter_seed());
    assert(r@[0].deep_view() =~= owner@);
    assert(r@[1].deep_view() =~= counter_tag());
    assert(r.deep_view() =~= counter_seeds(owner@));
    r
}

/// The contract of `derive_counter_address`, as a relation between its
/// inputs and what it returns.
pub open spec fn derivation_outcome(
    owner: Seq<u8>,
    program_id: Seq<u8>,
    r: Result<(Identity, u8), CounterError>,
) -> bool {
    match counter_address(owner, program_id) {
        Some(d) => r is Ok && r->Ok_0.0@ == d.0 && r->Ok_0.1 == d.1,
        None => r == Err::<(Identity, u8), CounterError>(CounterError::DerivationExhausted),
    }
}

/// Derives the address and bump of the counter account of `owner` under
/// `program_id`, from the seeds `[owner, "counter"]`.
pub fn derive_counter_address(owner: &Identity, program_id: &Identity) -> (r: Result<(Identity, u8), CounterError>)
    ensures
        derivation_outcome(owner@, program_id@, r),
{
    let seeds = counter_seed_list(owner);
    match try_find_program_address(&seeds, program_id) {
        Some(found) => Ok(found),
        None => Err(CounterError::DerivationExhausted),
    }
}

/// Deriving twice from the same owner and program id gives the same address
/// and bump, or fails both times with the same error.
pub proof fn derivation_is_deterministic(
    owner: Seq<u8>,
    program_id: Seq<u8>,
    first: Result<(Identity, u8), CounterError>,
    second: Result<(Identity, u8), CounterError>,
)
    requires
        derivation_outcome(owner, program_id, first),
        derivation_outcome(owner, program_id, second),
    ensures
        first is Ok <==> second is Ok,
        first is Ok ==> first->Ok_0.0@ == second->Ok_0.0@ && first->Ok_0.1 == second->Ok_0.1,
        first is Err ==> first == second,
{
}

} // verus!
