//! Finite-domain constraint types for the constraint programming layer.
use super::Val;
use vstd::prelude::*;

verus! {

/// Identifier for a constraint variable.
#[derive(Debug, Clone, PartialEq, Eq, Hash, Structural)]
pub struct VarId(pub u64);

/// A finite domain: the set of possible values a variable can take.
pub type Domain = Vec<Val>;

/// Relational constraint between variables or between a variable and a value.
#[derive(Debug, Clone, PartialEq)]
pub enum Constraint {
    Eq(VarId, VarId),
    Neq(VarId, VarId),
    Leq(VarId, VarId),
    Lt(VarId, VarId),
    Geq(VarId, VarId),
    Gt(VarId, VarId),
    AllDiff(Vec<VarId>),
    ValEq(VarId, Val),
    ValLeq(VarId, Val),
    ValLt(VarId, Val),
    ValGeq(VarId, Val),
    ValGt(VarId, Val),
}

/// Constraint used by the nondeterminism layer.
#[derive(Debug, Clone, PartialEq)]
pub enum NondetConstraint {
    Assert(bool),
}

} // verus!
