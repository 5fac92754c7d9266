//! Introspection instructions: self, input, state, sender, machine.
use crate::types::Val;
use vstd::prelude::*;

verus! {

/// Instructions for querying the current execution context.
#[derive(Debug)]
pub enum IntrospectInstruction {
    /// Get the current object's ID.
    GetSelf,
    /// Get the current input message.
    GetInput,
    /// Get the current physical machine.
    GetCurrentMachine,
    /// Read the object's internal state.
    GetState,
    /// Replace the object's internal state.
    SetState(Vec<Val>),
    /// Get the sender of the current call.
    GetSender,
}

} // verus!
