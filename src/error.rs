use vstd::prelude::*;

verus! {

/// Every way an operation of the counter program can fail.
#[derive(Clone, Copy, Debug, PartialEq, Eq, Structural)]
pub enum CounterError {
    /// The declared owner of a checked account is not the expected authority.
    Unauthorized,
    /// An increment was asked for by a non-owner or a non-signer.
    UnauthorizedAccount,
    /// Initialize was called on an account that already has an owner.
    CounterIsAlreadyInitialized,
    /// The counter account's address is not the derived address.
    InvalidPda,
    /// The instruction tag is missing or not recognised.
    UnknownInstruction,
    /// An account buffer is too small for the counter record.
    MalformedAccountData,
    /// An increment would take the counter past 255.
    CounterOverflow,
    /// No bump value gave a valid derived address.
    DerivationExhausted,
    /// The request supplied fewer accounts than the instruction reads.
    NotEnoughAccountKeys,
}

/// The custom error code of each failure kind; `None` for the missing-account
/// failure, which the host reports with a code of its own.
pub open spec fn custom_code_of(e: CounterError) -> Option<u32> {
    match e {
        CounterError::Unauthorized => Some(0),
        CounterError::UnauthorizedAccount => Some(1),
        CounterError::CounterIsAlreadyInitialized => Some(2),
        CounterError::InvalidPda => Some(3),
        CounterError::UnknownInstruction => Some(4),
        CounterError::MalformedAccountData => Some(5),
        CounterError::CounterOverflow => Some(6),
        CounterError::DerivationExhausted => Some(7),
        CounterError::NotEnoughAccountKeys => None,
    }
}

impl CounterError {
    pub fn custom_code(&self) -> (r: Option<u32>)
        ensures
            r == custom_code_of(*self),
    {
        match self {
            CounterError::Unauthorized => Some(0),
            CounterError::UnauthorizedAccount => Some(1),
            CounterError::CounterIsAlreadyInitialized => Some(2),
            CounterError::InvalidPda => Some(3),
            CounterError::UnknownInstruction => Some(4),
            CounterError::MalformedAccountData => Some(5),
            CounterError::CounterOverflow => Some(6),
            CounterError::DerivationExhausted => Some(7),
            CounterError::NotEnoughAccountKeys => None,
        }
    }
}

} // verus!
