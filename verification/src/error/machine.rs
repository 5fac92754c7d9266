//! Machine-layer errors.
use crate::types::MachineId;
use vstd::prelude::*;

verus! {

#[derive(Debug)]
pub enum MachineError {
    Unreachable(MachineId),
    InvalidTransfer,
    TeleportDuringTx,
}

} // verus!
