//! A counter program keyed to an owner identity: address derivation, account
//! authority checks, a fixed-layout record codec, instruction decoding and the
//! Initialize / Increment handlers, each with a verified contract.

pub mod identity;
pub mod error;
pub mod derivation;
pub mod account;
pub mod codec;
pub mod instruction;
pub mod processor;
pub mod laws;
