//! Reification instructions: capture execution context as data.
use vstd::prelude::*;

verus! {

/// Instructions for reifying the execution state into inspectable values.
#[derive(Debug)]
pub enum ReifyInstruction {
    /// Capture the current execution context.
    ReifyContext,
    /// Capture the active transaction state.
    ReifyTxState,
    /// Capture the constraint solver state.
    ReifyConstraints,
}

} // verus!
