//! Pluggable transport for remote object calls.
use crate::error::{AVMError, MachineError};
use crate::trace::Trace;
use crate::types::{MachineId, ObjectId, Val};
use vstd::prelude::*;
use vstd::std_specs::convert::FromSpec;

verus! {

/// Transport layer for routing calls to remote machines.
///
/// The interpreter invokes this when the target's machine is not the local
/// machine. Implementations are supplied by the embedding runtime; nothing is
/// assumed of what they answer.
pub trait Transport: Send + Sync {
    /// Send `input` from `sender` to `target` on `target_machine` and wait for
    /// the answer.
    fn remote_call(
        &self,
        target_machine: &MachineId,
        target: ObjectId,
        input: Val,
        sender: ObjectId,
    ) -> Result<Val, AVMError>;
}

/// Null transport: every remote call fails with Unreachable.
pub struct LocalOnlyTransport;

impl Transport for LocalOnlyTransport {
    fn remote_call(
        &self,
        target_machine: &MachineId,
        _target: ObjectId,
        _input: Val,
        _sender: ObjectId,
    ) -> (r: Result<Val, AVMError>)
        ensures
            r == Err::<Val, AVMError>(
                <AVMError as FromSpec<MachineError>>::from_spec(
                    MachineError::Unreachable(*target_machine),
                ),
            ),
    {
        Err(AVMError::from(MachineError::Unreachable(target_machine.clone())))
    }
}

/// The outcome of a call from the transport's answer: a value is a callee
/// result with an empty trace (the remote machine keeps its own trace); an
/// error is a failed callee.
pub fn remote_outcome(answer: Result<Val, AVMError>) -> (o: Option<(Val, Trace)>)
    ensures
        match answer {
            Ok(v) => o matches Some((w, t)) && w == v && t@.len() == 0,
            Err(_) => o is None,
        },
{
    match answer {
        Ok(v) => Some((v, Vec::new())),
        Err(_) => None,
    }
}

} // verus!
