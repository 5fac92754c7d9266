//! Transaction-layer errors.
use crate::types::TxId;
use vstd::prelude::*;

verus! {

#[derive(Debug)]
pub enum TxError {
    Conflict(TxId),
    NotFound(TxId),
    AlreadyCommitted(TxId),
    AlreadyAborted(TxId),
    NoActiveTx,
    InvalidDuringTx,
}

} // verus!
