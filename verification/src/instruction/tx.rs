//! Transaction instructions: begin, commit, abort.
use crate::types::{ControllerId, TxId};
use vstd::prelude::*;

verus! {

/// Instructions for transaction management.
///
/// All writes within a transaction are buffered and applied atomically on
/// commit; an abort discards them.
#[derive(Debug)]
pub enum TxInstruction {
    /// Start a new transaction with an optional controller.
    Begin(Option<ControllerId>),
    /// Commit the transaction: validate the read set, then apply all pending
    /// writes.
    Commit(TxId),
    /// Abort the transaction: discard all pending writes.
    Abort(TxId),
}

} // verus!
