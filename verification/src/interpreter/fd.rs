//! Finite-domain constraint instruction handler: not implemented.
use super::dispatch::HandlerResult;
use crate::error::{AVMError, FdError};
use crate::instruction::FdInstruction;
use vstd::prelude::*;

verus! {

/// The name of a finite-domain instruction.
pub open spec fn fd_name(instr: FdInstruction) -> Seq<char> {
    match instr {
        FdInstruction::NewVar(_) => "newVar"@,
        FdInstruction::Narrow { .. } => "narrow"@,
        FdInstruction::Post(_) => "post"@,
        FdInstruction::Label(_) => "label"@,
    }
}

/// Every finite-domain instruction fails with `NotImplemented`, naming the
/// instruction.
pub fn execute(instr: FdInstruction) -> (r: HandlerResult)
    ensures
        r matches Err(AVMError::Fd(FdError::NotImplemented(name))) && name@ == fd_name(instr),
{
    let name = match &instr {
        FdInstruction::NewVar(_) => "newVar",
        FdInstruction::Narrow { .. } => "narrow",
        FdInstruction::Post(_) => "post",
        FdInstruction::Label(_) => "label",
    };
    Err(AVMError::from(FdError::NotImplemented(name.to_owned())))
}

} // verus!
