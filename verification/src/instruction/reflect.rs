//! Reflection instructions: inspect other objects' metadata.
use crate::types::ObjectId;
use vstd::prelude::*;

verus! {

/// Instructions for inspecting other objects; they bypass encapsulation.
#[derive(Debug)]
pub enum ReflectInstruction {
    /// Retrieve another object's metadata.
    Reflect(ObjectId),
    /// Predicate-based query over all objects' metadata; the predicate is
    /// identified by index into a registered predicate table.
    ScryMeta { predicate_id: u64 },
    /// Deep predicate query over both behavior and metadata.
    ScryDeep { predicate_id: u64 },
}

} // verus!
