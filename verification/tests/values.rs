use std::collections::HashSet;
use avm_core::types::{
    Constraint, ControllerId, FreshIdGen, MachineId, ObjectId, ObjectMeta, ReifiedContext, TxId,
    Val, VarId,
};

#[test]
fn ids_are_distinct_types() {
    let obj = ObjectId(0);
    let tx = TxId(0);
    assert_eq!(obj.0, tx.0);
}

#[test]
fn display_formatting() {
    assert_eq!(ObjectId(42).display_string(), "obj:42");
    assert_eq!(MachineId("m1".into()).display_string(), "machine:m1");
    assert_eq!(ControllerId("c1".into()).display_string(), "ctrl:c1");
    assert_eq!(TxId(42).display_string(), "tx:42");
}

#[test]
fn fresh_id_gen_monotonic() {
    let mut gen = FreshIdGen::new();
    let a = gen.next_object_id();
    let b = gen.next_object_id();
    assert_ne!(a, b);
    assert_eq!(a, ObjectId(0));
    assert_eq!(b, ObjectId(1));
}

#[test]
fn fresh_id_gen_independent_counters() {
    let mut gen = FreshIdGen::new();
    let obj = gen.next_object_id();
    let tx = gen.next_tx_id();
    let obj2 = gen.next_object_id();
    assert_eq!(obj, ObjectId(0));
    assert_eq!(tx, TxId(0));
    assert_eq!(obj2, ObjectId(1));
}

#[test]
fn hash_consistency() {
    let mut set = HashSet::new();
    set.insert(ObjectId(1));
    assert!(set.contains(&ObjectId(1)));
    assert!(!set.contains(&ObjectId(2)));
}

#[test]
fn fresh_id_gen_default_starts_at_zero() {
    let mut gen = FreshIdGen::default();
    assert_eq!(gen.next_tx_id(), TxId(0));
    assert_eq!(gen.next_tx_id(), TxId(1));
    assert_eq!(gen.next_object_id(), ObjectId(0));
    assert!(gen.can_issue_object_id());
    assert!(gen.can_issue_tx_id());
}

#[test]
fn large_ids_display_all_digits() {
    assert_eq!(ObjectId(1234567890).display_string(), "obj:1234567890");
    assert_eq!(TxId(0).display_string(), "tx:0");
    assert_eq!(ObjectId(u64::MAX).display_string(), "obj:18446744073709551615");
}

#[test]
fn object_meta_construction() {
    let meta = ObjectMeta {
        object_id: ObjectId(1),
        machine: MachineId("m0".into()),
        creating_controller: Some(ControllerId("c0".into())),
        current_controller: Some(ControllerId("c0".into())),
    };
    assert_eq!(meta.object_id, ObjectId(1));
    assert_eq!(meta.creating_controller, meta.current_controller);
}

#[test]
fn reified_context_construction() {
    let ctx = ReifiedContext {
        self_id: ObjectId(0),
        input: Val::Nat(42),
        sender: None,
        machine: MachineId("local".into()),
        controller: None,
    };
    assert!(ctx.sender.is_none());
    assert_eq!(ctx.input, Val::Nat(42));
}

#[test]
fn constraint_variants() {
    let c = Constraint::AllDiff(vec![VarId(0), VarId(1), VarId(2)]);
    assert!(matches!(c, Constraint::AllDiff(vars) if vars.len() == 3));
}

#[test]
fn var_id_equality() {
    assert_eq!(VarId(0), VarId(0));
    assert_ne!(VarId(0), VarId(1));
}

#[test]
fn val_equality() {
    assert_eq!(Val::Nat(42), Val::Nat(42));
    assert_ne!(Val::Nat(1), Val::Nat(2));
    assert_eq!(Val::Nothing, Val::Nothing);
    assert_eq!(Val::str("hello"), Val::Str("hello".into()));
}

#[test]
fn val_display() {
    assert_eq!(Val::Nat(42).display_string(), "42");
    assert_eq!(Val::Bool(true).display_string(), "true");
    assert_eq!(Val::str("hi").display_string(), "\"hi\"");
    assert_eq!(Val::Nothing.display_string(), "nothing");
    assert_eq!(Val::just(Val::Nat(1)).display_string(), "just 1");
    assert_eq!(Val::list(vec![Val::Nat(1), Val::Nat(2)]).display_string(), "[1, 2]");
    assert_eq!(Val::ObjectRef(ObjectId(7)).display_string(), "obj:7");
    assert_eq!(Val::TxRef(TxId(3)).display_string(), "tx:3");
}

#[test]
fn val_conversions() {
    assert_eq!(Val::from(10u64), Val::Nat(10));
    assert_eq!(Val::from(true), Val::Bool(true));
    assert_eq!(Val::from("test"), Val::str("test"));
    assert_eq!(Val::from(ObjectId(5)), Val::ObjectRef(ObjectId(5)));
    assert_eq!(Val::from(TxId(2)), Val::TxRef(TxId(2)));
}

#[test]
fn val_accessors() {
    assert_eq!(Val::Nat(5).as_nat(), Some(5));
    assert_eq!(Val::Bool(true).as_bool(), Some(true));
    assert_eq!(Val::str("x").as_str(), Some("x"));
    assert_eq!(Val::Nat(5).as_bool(), None);
    assert!(Val::Nothing.is_nothing());
    assert!(!Val::Nat(0).is_nothing());
    assert_eq!(Val::ObjectRef(ObjectId(9)).as_object_id(), Some(ObjectId(9)));
    assert_eq!(Val::TxRef(TxId(4)).as_tx_id(), Some(TxId(4)));
    assert_eq!(Val::Nat(0).as_object_id(), None);
    assert_eq!(Val::Nat(0).as_tx_id(), None);
}

#[test]
fn val_unwrap_just() {
    assert_eq!(Val::just(Val::Nat(7)).unwrap_just(), Some(Val::Nat(7)));
    assert_eq!(Val::Nothing.unwrap_just(), None);
}

#[test]
fn val_nested_structures() {
    let nested = Val::list(vec![
        Val::pair(Val::Nat(1), Val::str("a")),
        Val::just(Val::Bool(false)),
    ]);
    assert_eq!(nested.display_string(), "[(1, \"a\"), just false]");
}

#[test]
fn val_display_edge_cases() {
    assert_eq!(Val::list(vec![]).display_string(), "[]");
    assert_eq!(Val::Bool(false).display_string(), "false");
    assert_eq!(Val::Nat(0).display_string(), "0");
    assert_eq!(Val::str("").display_string(), "\"\"");
    assert_eq!(
        Val::just(Val::just(Val::Nothing)).display_string(),
        "just just nothing"
    );
    assert_eq!(
        Val::list(vec![Val::list(vec![Val::Nat(1)]), Val::Nat(20)]).display_string(),
        "[[1], 20]"
    );
}

#[test]
fn val_from_string_and_clone() {
    let v = Val::from(String::from("owned"));
    assert_eq!(v, Val::str("owned"));
    let deep = Val::pair(Val::list(vec![Val::Nat(3)]), Val::just(Val::str("z")));
    assert_eq!(deep.clone(), deep);
}

#[test]
fn unwrap_just_or_self_keeps_other_values() {
    assert_eq!(Val::just(Val::Nat(3)).unwrap_just_or_self(), Val::Nat(3));
    assert_eq!(Val::Nat(3).unwrap_just_or_self(), Val::Nat(3));
    assert_eq!(Val::Nothing.unwrap_just_or_self(), Val::Nothing);
}

#[test]
fn ids_count_the_draws_of_each_kind() {
    let mut gen = FreshIdGen::new();
    for m in 0..5u64 {
        assert_eq!(gen.next_tx_id(), TxId(m));
        if m % 2 == 0 {
            gen.next_object_id();
        }
    }
    assert_eq!(gen.next_object_id(), ObjectId(3));
    assert_eq!(gen.next_tx_id(), TxId(5));
}
