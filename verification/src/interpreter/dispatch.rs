//! Results of the handlers, and the dispatch of an instruction.
//!
//! [`dispatch`] executes every instruction that needs nothing beyond the
//! state. Two instructions need work from the caller, which walks the
//! program: an object call (run the callee's program, or send it through the
//! transport) and a pure function call (evaluate the function). For these
//! `dispatch` returns the work to do, and the caller hands the result to
//! [`super::obj::finish_call`] or [`super::pure_fn::finish_pure_call`].
use super::controller::{controlled, controller_ready};
use super::machine::{machine_done, machine_ready};
use super::obj::{created, destroyed, known_object, received};
use super::tx::tx_ready;
use super::{
    controller, fd, introspect, machine, nondet, obj, pure_fn, reflect, reify, tx,
};
use crate::error::AVMError;
use crate::instruction::{
    Instruction, IntrospectInstruction, ObjInstruction, PureInstruction, TxInstruction,
};
use crate::store::fx::{fx_get, fx_keys};
use crate::trace::{LogEntry, Trace};
use crate::types::{ObjectId, Val};
use crate::vm::State;
use vstd::prelude::*;

verus! {

/// Result from a single leaf handler: the response value and at most one log
/// entry.
pub type HandlerResult = Result<(Val, Option<LogEntry>), AVMError>;

/// The result of a successful AVM execution.
#[derive(Debug)]
pub struct Success<A> {
    pub value: A,
    pub trace: Trace,
}

/// The result type of an AVM execution.
pub type AVMResult<A> = Result<Success<A>, AVMError>;

/// What became of an instruction.
#[derive(Debug)]
pub enum Step {
    /// It was executed, with this result.
    Done(Result<(Val, Trace), AVMError>),
    /// It is a call of `target` with `input`, for the caller to run.
    Call { target: ObjectId, input: Val },
    /// It is a call of pure function `name` on `args`, for the caller to
    /// evaluate.
    PureCall { name: String, args: Vec<Val> },
}

/// `d` is the handler result `r` with its optional entry made a trace.
pub open spec fn lifted(r: HandlerResult, d: Result<(Val, Trace), AVMError>) -> bool {
    match r {
        Ok((v, e)) => d matches Ok((v2, t)) && v2 == v && t@ == (match e {
            Some(x) => seq![x],
            None => Seq::empty(),
        }),
        Err(err) => d == Err::<(Val, Trace), AVMError>(err),
    }
}

/// The handler result with its optional entry made a trace.
pub fn lift(r: HandlerResult) -> (d: Result<(Val, Trace), AVMError>)
    ensures
        lifted(r, d),
{
    match r {
        Ok((v, e)) => {
            let mut t: Trace = Vec::new();
            match e {
                Some(x) => t.push(x),
                None => {},
            }
            Ok((v, t))
        },
        Err(err) => Err(err),
    }
}

/// What an instruction needs of the state: room in the counters for what it
/// draws or stamps, and, for a commit that goes ahead, pending creations filed
/// under their own ids.
pub open spec fn ready<P>(instr: Instruction, s: State<P>) -> bool {
    match instr {
        Instruction::Obj(o) => match o {
            ObjInstruction::Create { .. } => s.fresh_ids.next_object() < u64::MAX && s.event_counter
                < u64::MAX,
            ObjInstruction::Destroy(id) => known_object(s, id) ==> s.event_counter < u64::MAX,
            ObjInstruction::Receive => s.event_counter < u64::MAX,
            ObjInstruction::Call { .. } => true,
        },
        Instruction::Introspect(i) => i is SetState ==> s.event_counter < u64::MAX,
        Instruction::Tx(t) => tx_ready(t, s),
        Instruction::Pure(p) => p is Update ==> s.event_counter < u64::MAX,
        Instruction::Machine(m) => machine_ready(m, s),
        Instruction::Controller(c) => controller_ready(c, s),
        _ => true,
    }
}

/// What dispatching `instr` does: a call or a pure call is handed back
/// unchanged with the state untouched; every other instruction is executed
/// by its family's handler.
pub open spec fn dispatched<P>(instr: Instruction, before: State<P>, after: State<P>, step: Step) -> bool {
    match instr {
        Instruction::Obj(o) => match o {
            ObjInstruction::Call { target, input } => step == Step::Call { target, input } && after
                == before,
            ObjInstruction::Create { behavior_name, controller } => step is Done && created(
                before,
                after,
                behavior_name,
                controller,
                step->Done_0,
            ),
            ObjInstruction::Destroy(id) => step is Done && destroyed(before, after, id, step->Done_0),
            ObjInstruction::Receive => step is Done && received(before, after, step->Done_0),
        },
        Instruction::Pure(PureInstruction::Call { name, args }) => step == Step::PureCall {
            name,
            args,
        } && after == before,
        _ => step is Done && exists|r: HandlerResult|
            #[trigger] lifted(r, step->Done_0) && leaf_done(instr, before, after, r),
    }
}

/// What the handler of a leaf instruction does.
pub open spec fn leaf_done<P>(
    instr: Instruction,
    before: State<P>,
    after: State<P>,
    r: HandlerResult,
) -> bool {
    match instr {
        Instruction::Introspect(i) => introspect::introspected(i, before, after, r),
        Instruction::Reflect(i) => reflect::reflected(i, before, after, r),
        Instruction::Reify(i) => reify::reified(i, before, after, r),
        Instruction::Tx(t) => match t {
            TxInstruction::Begin(c) => tx::begin_outcome(before, after, c, r),
            TxInstruction::Commit(id) => tx::commit_outcome(before, after, id, r),
            TxInstruction::Abort(id) => tx::abort_outcome(before, after, id, r),
        },
        Instruction::Pure(p) => pure_fn::pure_done(p, before, after, r),
        Instruction::Machine(m) => machine_done(m, before, after, r),
        Instruction::Controller(c) => controlled(c, before, after, r),
        Instruction::Fd(f) => after == before && match r {
            Err(AVMError::Fd(crate::error::FdError::NotImplemented(name))) => name@ == fd::fd_name(f),
            _ => false,
        },
        Instruction::Nondet(n) => after == before && match r {
            Err(AVMError::Nondet(crate::error::NondetError::NotImplemented(name))) => name@
                == nondet::nondet_name(n),
            _ => false,
        },
        Instruction::Obj(_) => false,
    }
}

/// Execute `instr` against the state, or hand back the work that it needs
/// from the caller.
pub fn dispatch<P>(instr: Instruction, state: &mut State<P>) -> (step: Step)
    requires
        ready(instr, *old(state)),
    ensures
        dispatched(instr, *old(state), *final(state), step),
        old(state).wf() ==> final(state).wf(),
{
    match instr {
        Instruction::Obj(o) => match o {
            ObjInstruction::Create { behavior_name, controller } => Step::Done(
                obj::execute_create(behavior_name, controller, state),
            ),
            ObjInstruction::Destroy(id) => Step::Done(obj::execute_destroy(id, state)),
            ObjInstruction::Call { target, input } => Step::Call { target, input },
            ObjInstruction::Receive => Step::Done(obj::execute_receive(state)),
        },
        Instruction::Introspect(i) => Step::Done(lift(introspect::execute(i, state))),
        Instruction::Reflect(i) => Step::Done(lift(reflect::execute(i, state))),
        Instruction::Reify(i) => Step::Done(lift(reify::execute(i, state))),
        Instruction::Tx(t) => Step::Done(lift(tx::execute(t, state))),
        Instruction::Pure(p) => match p {
            PureInstruction::Call { name, args } => Step::PureCall { name, args },
            other => Step::Done(lift(pure_fn::execute(other, state))),
        },
        Instruction::Machine(m) => Step::Done(lift(machine::execute(m, state))),
        Instruction::Controller(c) => Step::Done(lift(controller::execute(c, state))),
        Instruction::Fd(f) => Step::Done(lift(fd::execute(f))),
        Instruction::Nondet(n) => Step::Done(lift(nondet::execute(n))),
    }
}

/// Whether the state is well-formed: every pending creation is filed under
/// its own id.
pub fn check_wf<P>(state: &State<P>) -> (b: bool)
    ensures
        b == state.wf(),
{
    let keys = fx_keys(&state.creates);
    let mut i: usize = 0;
    while i < keys.len()
        invariant
            i <= keys@.len(),
            keys@.to_set() == state.creates@.dom(),
            forall|j: int| 0 <= j < i ==> state.creates@[#[trigger] keys@[j]].id.0 == keys@[j],
        decreases keys@.len() - i,
    {
        match fx_get(&state.creates, keys[i]) {
            Some(entry) => {
                if entry.id.0 != keys[i] {
                    proof {
                        assert(keys@.to_set().contains(keys@[i as int]));
                    }
                    return false;
                }
            },
            None => {
                proof {
                    assert(keys@.to_set().contains(keys@[i as int]));
                }
            },
        }
        i = i + 1;
    }
    proof {
        assert forall|k: u64| #[trigger] state.creates@.contains_key(k) implies state.creates@[k].id.0
            == k by {
            assert(keys@.to_set().contains(k));
            let j = choose|j: int| 0 <= j < keys@.len() && #[trigger] keys@[j] == k;
        }
    }
    true
}

/// Whether `instr` is [`ready`] to run against the state.
pub fn is_ready<P>(instr: &Instruction, state: &State<P>) -> (b: bool)
    ensures
        b == ready(*instr, *state),
{
    let room = state.event_counter < u64::MAX;
    match instr {
        Instruction::Obj(o) => match o {
            ObjInstruction::Create { .. } => state.fresh_ids.can_issue_object_id() && room,
            ObjInstruction::Destroy(id) => {
                let known = state.store.objects.contains(id) || crate::store::fx::fx_contains(
                    &state.creates,
                    id.0,
                );
                !known || room
            },
            ObjInstruction::Receive => room,
            ObjInstruction::Call { .. } => true,
        },
        Instruction::Introspect(i) => match i {
            IntrospectInstruction::SetState(_) => room,
            _ => true,
        },
        Instruction::Tx(t) => match t {
            TxInstruction::Begin(_) => state.tx.is_some() || (state.fresh_ids.can_issue_tx_id()
                && room),
            TxInstruction::Commit(id) => state.tx != Some(*id) || (room && check_wf(state)),
            TxInstruction::Abort(id) => state.tx != Some(*id) || room,
        },
        Instruction::Pure(p) => match p {
            PureInstruction::Update { .. } => room,
            _ => true,
        },
        Instruction::Machine(m) => match m {
            crate::instruction::MachineInstruction::GetMachine(_) => true,
            crate::instruction::MachineInstruction::Teleport(_) => state.tx.is_some() || room,
            crate::instruction::MachineInstruction::MoveObject { object, .. } => !state.store.metadata.contains(object) || room,
            crate::instruction::MachineInstruction::Fetch(_) => room,
        },
        Instruction::Controller(c) => match c {
            crate::instruction::ControllerInstruction::Transfer { object, .. } => {
                !(state.store.objects.contains(object) && state.tx.is_none()
                    && state.store.metadata.contains(object)) || room
            },
            crate::instruction::ControllerInstruction::Freeze(id) => {
                let controlled_now = match state.store.metadata.get(id) {
                    Some(m) => m.current_controller.is_some(),
                    None => false,
                };
                !controlled_now || room
            },
            _ => true,
        },
        _ => true,
    }
}

} // verus!
