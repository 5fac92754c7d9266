//! Object-layer errors.
use crate::types::{Input, ObjectId};
use vstd::prelude::*;

verus! {

#[derive(Debug)]
pub enum ObjError {
    NotFound(ObjectId),
    AlreadyDestroyed(ObjectId),
    AlreadyExists(ObjectId),
    InvalidInput(ObjectId, Input),
    RejectedCall(ObjectId),
    MetadataCorruption(ObjectId),
    BehaviorNotFound(String),
    /// A program stopped at a `Halt` operation, with its message.
    Halted(String),
}

} // verus!
