use vstd::prelude::*;
use crate::error::CounterError;
use crate::identity::Identity;

verus! {

/// An account handed in by the host: its address, the program that owns its
/// storage, whether it signed the request, and its data buffer.
#[derive(Debug)]
pub struct Account {
    pub key: Identity,
    pub owner: Identity,
    pub is_signer: bool,
    pub data: Vec<u8>,
}

/// Passes `account` through when its declared owner is `owner`, and fails with
/// `Unauthorized` otherwise.
pub fn verify_account_owner<'a>(account: &'a Account, owner: &Identity) -> (r: Result<&'a Account, CounterError>)
    ensures
        account.owner@ == owner@ ==> r == Ok::<&Account, CounterError>(account),
        account.owner@ != owner@ ==> r == Err::<&Account, CounterError>(CounterError::Unauthorized),
{
    if !account.owner.same_as(owner) {
        return Err(CounterError::Unauthorized);
    }
    Ok(account)
}

} // verus!
