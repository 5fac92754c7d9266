//! Controller-layer errors.
use crate::types::{ControllerId, ObjectId};
use vstd::prelude::*;

verus! {

#[derive(Debug)]
pub enum ControllerError {
    Unreachable(ControllerId),
    UnauthorizedTransfer(ObjectId),
    CrossControllerTx(ObjectId),
    NotAvailable(ObjectId),
    NotConsistent(ObjectId),
    FreezeFailed(ObjectId),
    NoController(ObjectId),
}

} // verus!
