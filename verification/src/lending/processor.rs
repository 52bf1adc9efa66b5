//! The entry point of the lending program's instructions.
use crate::lending::error::LendingError;
use crate::pubkey::Pubkey;
use vstd::prelude::*;

verus! {

/// Handles the program's instructions.
pub struct Processor {}

impl Processor {
    /// Processes an instruction: every instruction is accepted and changes nothing.
    pub fn process(program_id: &Pubkey, instruction_data: &[u8]) -> (r: Result<(), LendingError>)
        ensures
            r is Ok,
    {
        Ok(())
    }
}

} // verus!
