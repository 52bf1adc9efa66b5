//! The entry point of the farming program's instructions.
use crate::farming::error::FarmingError;
use crate::pubkey::Pubkey;
use vstd::prelude::*;

verus! {

/// Handles the program's instructions.
pub struct Processor {}

impl Processor {
    /// Processes an instruction: every instruction is accepted and changes nothing.
    pub fn process(program_id: &Pubkey, instruction_data: &[u8]) -> (r: Result<(), FarmingError>)
        ensures
            r is Ok,
    {
        Ok(())
    }
}

} // verus!
