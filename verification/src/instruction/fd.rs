//! Finite-domain constraint instructions.
use crate::types::constraint::{Constraint, Domain, VarId};
use vstd::prelude::*;

verus! {

/// Instructions for the finite-domain constraint solver.
///
/// Not implemented by the interpreter: every operation fails with
/// `FdError::NotImplemented`.
#[derive(Debug)]
pub enum FdInstruction {
    /// Create a new variable with a finite domain.
    NewVar(Domain),
    /// Narrow a variable's domain by intersection.
    Narrow { var: VarId, domain: Domain },
    /// Post a relational constraint and trigger propagation.
    Post(Constraint),
    /// Select a value for a variable (call-time choice).
    Label(VarId),
}

} // verus!
