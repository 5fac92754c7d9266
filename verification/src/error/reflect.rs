//! Reflection-layer errors.
use crate::types::ObjectId;
use vstd::prelude::*;

verus! {

#[derive(Debug)]
pub enum ReflectError {
    MetadataNotFound(ObjectId),
    MetadataInconsistent(ObjectId),
    StoreCorruption,
    ScryPredicateFailed,
    ReflectionDenied,
}

} // verus!
