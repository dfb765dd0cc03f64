use vstd::prelude::*;
use crate::error::CounterError;

verus! {

/// The two operations of the counter program.
#[derive(Clone, Copy, Debug, PartialEq, Eq, Structural)]
pub enum Instruction {
    InitializeCounter,
    IncrementCounter,
}

/// The instruction that raw instruction data names by its first byte:
/// 0 for Initialize, 1 for Increment; `None` for an empty buffer or any other tag.
pub open spec fn decoded_instruction(data: Seq<u8>) -> Option<Instruction> {
    if data.len() == 0 {
        None
    } else if data[0] == 0 {
        Some(Instruction::InitializeCounter)
    } else if data[0] == 1 {
        Some(Instruction::IncrementCounter)
    } else {
        None
    }
}

/// Decodes the instruction tag, the first byte of `data`; bytes after it are
/// not read. Fails with `UnknownInstruction` on an empty buffer or an unknown tag.
pub fn decode_instruction(data: &[u8]) -> (r: Result<Instruction, CounterError>)
    ensures
        match decoded_instruction(data@) {
            Some(i) => r == Ok::<Instruction, CounterError>(i),
            None => r == Err::<Instruction, CounterError>(CounterError::UnknownInstruction),
        },
{
    if data.len() == 0 {
        return Err(CounterError::UnknownInstruction);
    }
    let tag = data[0];
    if tag == 0 {
        Ok(Instruction::InitializeCounter)
    } else if tag == 1 {
        Ok(Instruction::IncrementCounter)
    } else {
        Err(CounterError::UnknownInstruction)
    }
}

} // verus!
