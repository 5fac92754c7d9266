use avm_core::error::{AVMError, FdError, MachineError, NondetError, ObjError, PureError, TxError};
use avm_core::instruction::{
    self, ControllerInstruction, FdInstruction, Instruction, MachineInstruction,
    NondetInstruction, PureInstruction, ReifyInstruction,
};
use avm_core::interpreter::dispatch::{check_wf, is_ready, lift};
use avm_core::interpreter::obj::{begin_call, finish_call};
use avm_core::interpreter::pure_fn::finish_pure_call;
use avm_core::interpreter::{dispatch, Step};
use avm_core::store::ObjectBehavior;
use avm_core::trace::{EventType, LogEntry, Trace};
use avm_core::transport::{remote_outcome, LocalOnlyTransport, Transport};
use avm_core::types::{ControllerId, MachineId, ObjectId, ObjectMeta, TxId, Val};
use avm_core::vm::State;

fn test_state() -> State<()> {
    State::new(MachineId("local".into()))
}

/// Runs one instruction that the state alone can execute.
fn exec(state: &mut State<()>, instr: Instruction) -> Result<(Val, Trace), AVMError> {
    assert!(is_ready(&instr, state));
    match dispatch(instr, state) {
        Step::Done(r) => r,
        other => panic!("instruction needs the caller: {:?}", other),
    }
}

fn value(state: &mut State<()>, instr: Instruction) -> Val {
    exec(state, instr).unwrap().0
}

#[test]
fn committed_creation_reaches_the_store() {
    let mut s = test_state();
    let tx = value(&mut s, instruction::begin_tx(None));
    assert_eq!(tx, Val::TxRef(TxId(0)));
    let obj = value(&mut s, instruction::create_obj("counter", None));
    assert_eq!(obj, Val::ObjectRef(ObjectId(0)));
    assert!(!s.store.contains(&ObjectId(0)));
    let (ok, trace) = exec(&mut s, instruction::commit_tx(TxId(0))).unwrap();
    assert_eq!(ok, Val::Bool(true));
    assert!(matches!(trace[0].event_type, EventType::TransactionCommitted(TxId(0))));
    assert_eq!(trace[0].timestamp, 2);
    assert!(s.store.contains(&ObjectId(0)));
    assert_eq!(s.store.objects.get(&ObjectId(0)).unwrap().name, "counter");
    assert!(!s.in_transaction());
    assert!(s.creates.is_empty());
}

#[test]
fn aborted_transaction_leaves_the_store_as_it_was() {
    let mut s = test_state();
    value(&mut s, instruction::create_obj("keep", None));
    value(&mut s, instruction::begin_tx(None));
    value(&mut s, instruction::create_obj("drop", None));
    value(&mut s, instruction::set_state(vec![Val::Nat(5)]));
    value(&mut s, instruction::destroy_obj(ObjectId(0)));
    let aborted = value(&mut s, instruction::abort_tx(TxId(0)));
    assert_eq!(aborted, Val::Nothing);
    assert!(s.store.contains(&ObjectId(0)));
    assert!(!s.store.contains(&ObjectId(1)));
    assert!(s.pending_states.is_empty());
    assert!(s.destroys.is_empty());
    assert!(!s.in_transaction());
}

#[test]
fn transaction_errors() {
    let mut s = test_state();
    let e = exec(&mut s, instruction::commit_tx(TxId(0))).unwrap_err();
    assert!(e.is_no_active_tx());
    let e = exec(&mut s, instruction::abort_tx(TxId(3))).unwrap_err();
    assert!(e.is_no_active_tx());
    value(&mut s, instruction::begin_tx(Some(ControllerId("c".into()))));
    let e = exec(&mut s, instruction::begin_tx(None)).unwrap_err();
    assert!(matches!(e.as_tx_error(), Some(TxError::InvalidDuringTx)));
    let e = exec(&mut s, instruction::commit_tx(TxId(7))).unwrap_err();
    assert!(matches!(e.as_tx_error(), Some(TxError::NotFound(TxId(7)))));
    assert!(s.in_transaction());
}

#[test]
fn commit_with_a_vanished_read_fails_and_rolls_back() {
    let mut s = test_state();
    value(&mut s, instruction::begin_tx(None));
    s.observe(ObjectId(9));
    let e = exec(&mut s, instruction::commit_tx(TxId(0))).unwrap_err();
    assert!(e.is_conflict());
    assert!(!s.in_transaction());
    assert!(s.observed.is_empty());
}

#[test]
fn destroy_outside_a_transaction_removes_at_once() {
    let mut s = test_state();
    value(&mut s, instruction::create_obj("o", None));
    let (v, trace) = exec(&mut s, instruction::destroy_obj(ObjectId(0))).unwrap();
    assert_eq!(v, Val::Bool(true));
    assert!(matches!(trace[0].event_type, EventType::ObjectDestroyed(ObjectId(0))));
    assert!(!s.store.contains(&ObjectId(0)));
    let e = exec(&mut s, instruction::destroy_obj(ObjectId(0))).unwrap_err();
    assert!(e.is_not_found());
}

#[test]
fn introspection_reads_the_frame() {
    let mut s = test_state();
    s.self_id = ObjectId(4);
    s.input = Val::str("in");
    assert_eq!(value(&mut s, instruction::get_self()), Val::ObjectRef(ObjectId(4)));
    assert_eq!(value(&mut s, instruction::get_input()), Val::str("in"));
    assert_eq!(value(&mut s, instruction::get_current_machine()), Val::str("local"));
    assert_eq!(value(&mut s, instruction::get_sender()), Val::Nothing);
    assert_eq!(value(&mut s, instruction::get_state()), Val::List(vec![]));
    value(&mut s, instruction::set_state(vec![Val::Nat(1), Val::Nat(2)]));
    assert_eq!(
        value(&mut s, instruction::get_state()),
        Val::List(vec![Val::Nat(1), Val::Nat(2)])
    );
    s.sender = Some(ObjectId(1));
    assert_eq!(value(&mut s, instruction::get_sender()), Val::just(Val::ObjectRef(ObjectId(1))));
    let (_, trace) = exec(&mut s, instruction::receive()).unwrap();
    assert!(matches!(trace[0].event_type, EventType::MessageReceived { id: ObjectId(4), .. }));
}

#[test]
fn machine_instructions() {
    let mut s = test_state();
    value(&mut s, instruction::create_obj("o", None));
    let m = value(&mut s, Instruction::Machine(MachineInstruction::GetMachine(ObjectId(0))));
    assert_eq!(m, Val::just(Val::str("local")));
    let unknown = value(&mut s, Instruction::Machine(MachineInstruction::GetMachine(ObjectId(5))));
    assert_eq!(unknown, Val::Nothing);
    let moved = value(
        &mut s,
        Instruction::Machine(MachineInstruction::MoveObject {
            object: ObjectId(0),
            target: MachineId("far".into()),
        }),
    );
    assert_eq!(moved, Val::Bool(true));
    assert_eq!(s.store.metadata.get(&ObjectId(0)).unwrap().machine, MachineId("far".into()));
    let not_moved = value(
        &mut s,
        Instruction::Machine(MachineInstruction::MoveObject {
            object: ObjectId(3),
            target: MachineId("far".into()),
        }),
    );
    assert_eq!(not_moved, Val::Bool(false));
    value(&mut s, Instruction::Machine(MachineInstruction::Teleport(MachineId("m2".into()))));
    assert_eq!(s.machine_id, MachineId("m2".into()));
    value(&mut s, instruction::begin_tx(None));
    let e = exec(&mut s, Instruction::Machine(MachineInstruction::Teleport(MachineId("m3".into()))))
        .unwrap_err();
    assert!(matches!(e, AVMError::Machine(MachineError::TeleportDuringTx)));
}

#[test]
fn controller_instructions() {
    let mut s = test_state();
    value(&mut s, instruction::create_obj("o", Some(ControllerId("c1".into()))));
    let c = value(&mut s, Instruction::Controller(ControllerInstruction::GetController(ObjectId(0))));
    assert_eq!(c, Val::just(Val::str("c1")));
    let none = value(&mut s, Instruction::Controller(ControllerInstruction::GetCurrentController));
    assert_eq!(none, Val::Nothing);
    value(
        &mut s,
        Instruction::Controller(ControllerInstruction::Transfer {
            object: ObjectId(0),
            new_controller: ControllerId("c2".into()),
        }),
    );
    assert_eq!(
        s.store.metadata.get(&ObjectId(0)).unwrap().current_controller,
        Some(ControllerId("c2".into()))
    );
}

#[test]
fn constraint_layers_are_not_implemented() {
    let mut s = test_state();
    let e = exec(&mut s, Instruction::Fd(FdInstruction::NewVar(vec![]))).unwrap_err();
    assert!(matches!(e, AVMError::Fd(FdError::NotImplemented(ref n)) if n == "newVar"));
    let e = exec(&mut s, Instruction::Nondet(NondetInstruction::Choose(vec![]))).unwrap_err();
    assert!(matches!(e, AVMError::Nondet(NondetError::NotImplemented(ref n)) if n == "choose"));
    assert_eq!(e.display_string(), "nondeterminism not implemented: choose");
}

#[test]
fn reify_context_outside_a_transaction() {
    let mut s = test_state();
    s.self_id = ObjectId(2);
    s.input = Val::Nat(8);
    let v = value(&mut s, Instruction::Reify(ReifyInstruction::ReifyContext));
    assert_eq!(
        v,
        Val::list(vec![
            Val::ObjectRef(ObjectId(2)),
            Val::Nat(8),
            Val::Nothing,
            Val::str("local"),
            Val::Nothing,
        ])
    );
    let e = exec(&mut s, Instruction::Reify(ReifyInstruction::ReifyTxState)).unwrap_err();
    assert_eq!(e.display_string(), "no active transaction to reify");
    value(&mut s, instruction::begin_tx(Some(ControllerId("k".into()))));
    s.observe(ObjectId(2));
    let v = value(&mut s, Instruction::Reify(ReifyInstruction::ReifyTxState));
    assert_eq!(
        v,
        Val::just(Val::list(vec![
            Val::TxRef(TxId(0)),
            Val::Nat(0),
            Val::Nat(0),
            Val::Nat(0),
            Val::Nat(1),
        ]))
    );
    let e = exec(&mut s, Instruction::Reify(ReifyInstruction::ReifyConstraints)).unwrap_err();
    assert_eq!(e.display_string(), "constraint store unavailable");
}

#[test]
fn calls_are_handed_back_to_the_caller() {
    let mut s = test_state();
    let target = ObjectId(3);
    match dispatch(instruction::call(target, Val::Nat(1)), &mut s) {
        Step::Call { target: t, input } => {
            assert_eq!(t, target);
            assert_eq!(input, Val::Nat(1));
        }
        other => panic!("expected a call, got {:?}", other),
    }
    match dispatch(instruction::call_pure("add", vec![Val::Nat(1)]), &mut s) {
        Step::PureCall { name, args } => {
            assert_eq!(name, "add");
            assert_eq!(args, vec![Val::Nat(1)]);
        }
        other => panic!("expected a pure call, got {:?}", other),
    }
    assert_eq!(s.event_counter, 0);
}

#[test]
fn begin_call_plans_and_logs_inside_a_transaction() {
    let mut s = test_state();
    let e = begin_call(ObjectId(0), &Val::Nat(1), &mut s).unwrap_err();
    assert!(e.is_not_found());
    s.store.objects.insert(ObjectId(0), ObjectBehavior::named("echo"));
    s.store.metadata.insert(
        ObjectId(0),
        ObjectMeta {
            object_id: ObjectId(0),
            machine: MachineId("far".into()),
            creating_controller: None,
            current_controller: None,
        },
    );
    let plan = begin_call(ObjectId(0), &Val::Nat(1), &mut s).unwrap();
    assert_eq!(plan.behavior_name, "echo");
    assert_eq!(plan.target_machine, MachineId("far".into()));
    assert!(plan.is_remote);
    assert!(s.tx_log.is_empty());
    value(&mut s, instruction::begin_tx(None));
    begin_call(ObjectId(0), &Val::Nat(2), &mut s).unwrap();
    assert_eq!(s.tx_log, vec![(ObjectId(0), Val::Nat(2))]);
    assert!(s.observed.contains(&0));
}

#[test]
fn finish_call_reports_success_and_failure() {
    let mut s = test_state();
    let callee_entry = LogEntry::new(0, EventType::StateUpdated(ObjectId(2)), None);
    s.event_counter = 1;
    let (v, trace) =
        finish_call(&mut s, ObjectId(2), Val::Nat(5), Some((Val::Nat(6), vec![callee_entry])));
    assert_eq!(v, Val::just(Val::Nat(6)));
    assert_eq!(trace.len(), 2);
    assert_eq!(trace[1].timestamp, 1);
    assert!(matches!(
        &trace[1].event_type,
        EventType::ObjectCalled { id: ObjectId(2), output: Some(Val::Nat(6)), .. }
    ));
    let (v, trace) = finish_call(&mut s, ObjectId(2), Val::Nat(5), None);
    assert_eq!(v, Val::Nothing);
    assert_eq!(trace.len(), 1);
    assert!(matches!(&trace[0].event_type, EventType::ObjectCalled { output: None, .. }));
    assert_eq!(s.event_counter, 3);
}

#[test]
fn pure_call_results() {
    let r = finish_pure_call("f".into(), Some(Some(Val::Nat(3)))).unwrap();
    assert_eq!(r.0, Val::Nat(3));
    let r = finish_pure_call("f".into(), Some(None)).unwrap();
    assert_eq!(r.0, Val::Nothing);
    let e = finish_pure_call("g".into(), None).unwrap_err();
    assert!(matches!(
        e.display_string().as_str(),
        "function not found: g"
    ));
    let mut s = test_state();
    let e = exec(
        &mut s,
        Instruction::Pure(PureInstruction::Register { name: "h".into(), function_id: 1 }),
    )
    .unwrap_err();
    assert_eq!(e.display_string(), "function already registered: h");
    let v = value(&mut s, Instruction::Pure(PureInstruction::Update { name: "h".into(), function_id: 2 }));
    assert_eq!(v, Val::Bool(true));
    let _ = PureError::NotFound(String::new());
}

#[test]
fn local_only_transport_refuses_remote_calls() {
    let t = LocalOnlyTransport;
    let e = t
        .remote_call(&MachineId("far".into()), ObjectId(1), Val::Nothing, ObjectId(0))
        .unwrap_err();
    assert_eq!(e.display_string(), "machine unreachable: machine:far");
    assert!(remote_outcome(Err(e)).is_none());
    let (v, trace) = remote_outcome(Ok(Val::Nat(4))).unwrap();
    assert_eq!(v, Val::Nat(4));
    assert!(trace.is_empty());
}

#[test]
fn readiness_and_well_formedness() {
    let mut s = test_state();
    assert!(check_wf(&s));
    s.event_counter = u64::MAX;
    assert!(!is_ready(&instruction::receive(), &s));
    assert!(is_ready(&instruction::get_self(), &s));
    s.event_counter = 0;
    s.creates.insert(
        5,
        avm_core::vm::CreateEntry { id: ObjectId(6), behavior_name: "x".into(), controller: None },
    );
    assert!(!check_wf(&s));
    let lifted = lift(Err(ObjError::NotFound(ObjectId(1)).into()));
    assert!(lifted.unwrap_err().is_not_found());
}

#[test]
fn timestamps_are_consecutive_across_instructions() {
    let mut s = test_state();
    let mut all: Vec<LogEntry> = Vec::new();
    for instr in vec![
        instruction::create_obj("a", None),
        instruction::get_self(),
        instruction::set_state(vec![Val::Nat(1)]),
        instruction::begin_tx(None),
        instruction::commit_tx(TxId(0)),
        instruction::receive(),
    ] {
        let before = s.event_counter;
        let (_, trace) = exec(&mut s, instr).unwrap();
        assert_eq!(s.event_counter, before + trace.len() as u64);
        all.extend(trace);
    }
    let stamps: Vec<u64> = all.iter().map(|e| e.timestamp).collect();
    assert_eq!(stamps, vec![0, 1, 2, 3, 4]);
    let before = s.event_counter;
    assert!(exec(&mut s, instruction::destroy_obj(ObjectId(77))).is_err());
    assert_eq!(s.event_counter, before);
}

#[test]
fn other_instructions_leave_the_transaction_alone() {
    let mut s = test_state();
    value(&mut s, instruction::create_obj("o", None));
    value(&mut s, instruction::begin_tx(Some(ControllerId("k".into()))));
    let snapshot_objects = s.tx_snapshot.as_ref().unwrap().objects.iter().len();
    for instr in vec![
        instruction::create_obj("p", None),
        instruction::set_state(vec![Val::Nat(3)]),
        instruction::destroy_obj(ObjectId(0)),
        Instruction::Machine(MachineInstruction::Fetch(ObjectId(0))),
        instruction::get_sender(),
    ] {
        exec(&mut s, instr).unwrap();
        assert_eq!(s.tx, Some(TxId(0)));
        assert_eq!(s.tx_controller, Some(ControllerId("k".into())));
        assert_eq!(s.tx_snapshot.as_ref().unwrap().objects.iter().len(), snapshot_objects);
    }
}

#[test]
fn abort_undoes_a_move_made_inside_the_transaction() {
    let mut s = test_state();
    value(&mut s, instruction::create_obj("o", None));
    value(&mut s, instruction::begin_tx(None));
    value(
        &mut s,
        Instruction::Machine(MachineInstruction::MoveObject {
            object: ObjectId(0),
            target: MachineId("far".into()),
        }),
    );
    assert_eq!(s.store.metadata.get(&ObjectId(0)).unwrap().machine, MachineId("far".into()));
    value(&mut s, instruction::abort_tx(TxId(0)));
    assert_eq!(s.store.metadata.get(&ObjectId(0)).unwrap().machine, MachineId("local".into()));
}

#[test]
fn commit_applies_destroys_after_creates() {
    let mut s = test_state();
    value(&mut s, instruction::create_obj("old", None));
    value(&mut s, instruction::begin_tx(None));
    value(&mut s, instruction::create_obj("new", None));
    value(&mut s, instruction::destroy_obj(ObjectId(1)));
    value(&mut s, instruction::destroy_obj(ObjectId(0)));
    value(&mut s, instruction::commit_tx(TxId(0)));
    assert!(!s.store.contains(&ObjectId(0)));
    assert!(!s.store.contains(&ObjectId(1)));
    assert!(s.store.states.get(&ObjectId(1)).is_none());
}

#[test]
fn transfers_and_state_inside_a_transaction_wait_for_commit() {
    let mut s = test_state();
    value(&mut s, instruction::create_obj("o", Some(ControllerId("c1".into()))));
    s.self_id = ObjectId(0);
    value(&mut s, instruction::begin_tx(None));
    value(
        &mut s,
        Instruction::Controller(ControllerInstruction::Transfer {
            object: ObjectId(0),
            new_controller: ControllerId("c2".into()),
        }),
    );
    value(&mut s, instruction::set_state(vec![Val::Bool(true)]));
    assert_eq!(
        s.store.metadata.get(&ObjectId(0)).unwrap().current_controller,
        Some(ControllerId("c1".into()))
    );
    assert_eq!(s.store.states.get(&ObjectId(0)), Some(&vec![]));
    value(&mut s, instruction::commit_tx(TxId(0)));
    assert_eq!(
        s.store.metadata.get(&ObjectId(0)).unwrap().current_controller,
        Some(ControllerId("c2".into()))
    );
    assert_eq!(s.store.states.get(&ObjectId(0)), Some(&vec![Val::Bool(true)]));
    let frozen = value(&mut s, Instruction::Controller(ControllerInstruction::Freeze(ObjectId(0))));
    assert_eq!(frozen, Val::just(Val::Bool(true)));
}

#[test]
fn reify_tx_state_counts_the_overlay() {
    let mut s = test_state();
    value(&mut s, instruction::create_obj("a", None));
    value(&mut s, instruction::begin_tx(None));
    value(&mut s, instruction::create_obj("b", None));
    value(&mut s, instruction::create_obj("c", None));
    value(&mut s, instruction::destroy_obj(ObjectId(0)));
    begin_call(ObjectId(0), &Val::Nat(1), &mut s).unwrap();
    let v = value(&mut s, Instruction::Reify(ReifyInstruction::ReifyTxState));
    assert_eq!(
        v,
        Val::just(Val::list(vec![
            Val::TxRef(TxId(0)),
            Val::Nat(1),
            Val::Nat(2),
            Val::Nat(1),
            Val::Nat(1),
        ]))
    );
}

#[test]
fn commit_refusals_accept_any_pending_creations() {
    let mut s = test_state();
    s.creates.insert(
        5,
        avm_core::vm::CreateEntry { id: ObjectId(6), behavior_name: "x".into(), controller: None },
    );
    let commit = instruction::commit_tx(TxId(0));
    assert!(is_ready(&commit, &s));
    let e = exec(&mut s, commit).unwrap_err();
    assert!(e.is_no_active_tx());
    assert_eq!(s.creates.len(), 1);
    assert_eq!(s.event_counter, 0);
}
