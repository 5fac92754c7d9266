//! Reification instruction handler.
use super::dispatch::HandlerResult;
use super::introspect::sender_val;
use super::reflect::{controller_val, controller_value};
use crate::error::{AVMError, ReifyError};
use crate::instruction::ReifyInstruction;
use crate::store::fx::{fx_len, fxset_len};
use crate::trace::LogEntry;
use crate::types::val::{vals_view, ValView};
use crate::types::Val;
use crate::vm::State;
use vstd::prelude::*;
use vstd::std_specs::convert::FromSpec;

verus! {

/// The error for a reification failure.
pub open spec fn reify_err(e: ReifyError) -> AVMError {
    <AVMError as FromSpec<ReifyError>>::from_spec(e)
}

/// The model of the reified execution context: self, input, sender,
/// machine, and the transaction's controller.
pub open spec fn context_view<P>(s: State<P>) -> Seq<ValView> {
    seq![
        ValView::ObjectRef(s.self_id),
        s.input@,
        sender_val(s.sender)@,
        ValView::Str(s.machine_id.0@),
        controller_val(s.tx_controller)@,
    ]
}

/// What a reification instruction does. `ReifyContext` gives the context
/// list; `ReifyTxState` gives `Just` of the active transaction and the sizes
/// of its log, creations, destroys and read set, or fails with
/// `NoTransaction`; `ReifyConstraints` fails with
/// `ConstraintStoreUnavailable`. The state does not change.
pub open spec fn reified<P>(
    instr: ReifyInstruction,
    before: State<P>,
    after: State<P>,
    r: HandlerResult,
) -> bool {
    &&& after == before
    &&& match instr {
        ReifyInstruction::ReifyContext => r matches Ok((v, e)) && e is None && v@ == ValView::List(
            context_view(before),
        ),
        ReifyInstruction::ReifyTxState => match before.tx {
            Some(t) => r matches Ok((Val::Just(inner), e)) && e is None && match *inner {
                Val::List(items) => items@ == seq![
                    Val::TxRef(t),
                    Val::Nat(before.tx_log@.len() as u64),
                    Val::Nat(before.creates@.len() as u64),
                    Val::Nat(before.destroys@.len() as u64),
                    Val::Nat(before.observed@.len() as u64),
                ],
                _ => false,
            },
            None => r == Err::<(Val, Option<LogEntry>), AVMError>(
                reify_err(ReifyError::NoTransaction),
            ),
        },
        ReifyInstruction::ReifyConstraints => r == Err::<(Val, Option<LogEntry>), AVMError>(
            reify_err(ReifyError::ConstraintStoreUnavailable),
        ),
    }
}

/// Execute a reification instruction.
pub fn execute<P>(instr: ReifyInstruction, state: &mut State<P>) -> (r: HandlerResult)
    ensures
        reified(instr, *old(state), *final(state), r),
{
    match instr {
        ReifyInstruction::ReifyContext => {
            let mut items: Vec<Val> = Vec::new();
            items.push(Val::ObjectRef(state.self_id));
            items.push(state.input.clone());
            let sender = match state.sender {
                Some(s) => Val::just(Val::ObjectRef(s)),
                None => Val::Nothing,
            };
            items.push(sender);
            items.push(Val::Str(state.machine_id.0.clone()));
            items.push(controller_value(&state.tx_controller));
            proof {
                crate::types::val::lemma_vals_view(items@);
                let vv = vals_view(items@);
                let cv = context_view(*state);
                assert(vv.len() == cv.len());
                assert(vv[0] == crate::types::val::val_view(items@[0]));
                assert(vv[1] == crate::types::val::val_view(items@[1]));
                assert(vv[2] == crate::types::val::val_view(items@[2]));
                assert(vv[3] == crate::types::val::val_view(items@[3]));
                assert(vv[4] == crate::types::val::val_view(items@[4]));
                assert(vv =~= cv);
            }
            Ok((Val::list(items), None))
        },
        ReifyInstruction::ReifyTxState => {
            match state.tx {
                Some(tx_id) => {
                    let mut items: Vec<Val> = Vec::new();
                    items.push(Val::TxRef(tx_id));
                    items.push(Val::Nat(state.tx_log.len() as u64));
                    items.push(Val::Nat(fx_len(&state.creates) as u64));
                    items.push(Val::Nat(fxset_len(&state.destroys) as u64));
                    items.push(Val::Nat(fxset_len(&state.observed) as u64));
                    proof {
                        assert(items@ =~= seq![
                            Val::TxRef(tx_id),
                            Val::Nat(state.tx_log@.len() as u64),
                            Val::Nat(state.creates@.len() as u64),
                            Val::Nat(state.destroys@.len() as u64),
                            Val::Nat(state.observed@.len() as u64),
                        ]);
                    }
                    Ok((Val::just(Val::list(items)), None))
                },
                None => Err(AVMError::from(ReifyError::NoTransaction)),
            }
        },
        ReifyInstruction::ReifyConstraints => Err(AVMError::from(ReifyError::ConstraintStoreUnavailable)),
    }
}

} // verus!
