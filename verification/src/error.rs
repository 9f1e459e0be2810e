//! What can go wrong.

use vstd::prelude::*;

verus! {

/// The one failure a robot answers with: a script held a character that is
/// no instruction. The character is carried along.
#[derive(Debug, Clone, Copy, PartialEq, Eq, Structural)]
pub enum RobotError {
    /// The character is none of `R`, `L` and `A`.
    InvalidInstruction(char),
}

impl RobotError {
    /// The short code by which the host names the failure.
    pub fn message(&self) -> (text: &'static str)
        ensures
            text@ == "ERR_INSTRUCTION_ACTION"@,
    {
        "ERR_INSTRUCTION_ACTION"
    }
}

} // verus!
