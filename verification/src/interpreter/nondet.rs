//! Nondeterminism instruction handler: not implemented.
use super::dispatch::HandlerResult;
use crate::error::{AVMError, NondetError};
use crate::instruction::NondetInstruction;
use vstd::prelude::*;

verus! {

/// The name of a nondeterminism instruction.
pub open spec fn nondet_name(instr: NondetInstruction) -> Seq<char> {
    match instr {
        NondetInstruction::Choose(_) => "choose"@,
        NondetInstruction::Require(_) => "require"@,
    }
}

/// Every nondeterminism instruction fails with `NotImplemented`, naming the
/// instruction.
pub fn execute(instr: NondetInstruction) -> (r: HandlerResult)
    ensures
        r matches Err(AVMError::Nondet(NondetError::NotImplemented(name))) && name@ == nondet_name(
            instr,
        ),
{
    let name = match &instr {
        NondetInstruction::Choose(_) => "choose",
        NondetInstruction::Require(_) => "require",
    };
    Err(AVMError::from(NondetError::NotImplemented(name.to_owned())))
}

} // verus!
