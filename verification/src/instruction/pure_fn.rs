//! Pure function instructions: call, register, update.
use crate::types::Val;
use vstd::prelude::*;

verus! {

/// Instructions for the extensible pure function registry.
#[derive(Debug)]
pub enum PureInstruction {
    /// Call a named pure function with arguments.
    Call { name: String, args: Vec<Val> },
    /// Register a new pure function (fails if the name exists).
    Register { name: String, function_id: u64 },
    /// Update an existing pure function (increments its version).
    Update { name: String, function_id: u64 },
}

} // verus!
