//! Nondeterminism instructions.
use crate::types::constraint::NondetConstraint;
use crate::types::Val;
use vstd::prelude::*;

verus! {

/// Instructions for nondeterministic choice.
///
/// Not implemented by the interpreter: every operation fails with
/// `NondetError::NotImplemented`.
#[derive(Debug)]
pub enum NondetInstruction {
    /// Choose from a set of values (deferred until commit).
    Choose(Vec<Val>),
    /// Assert a constraint (accumulated and validated at commit).
    Require(NondetConstraint),
}

} // verus!
