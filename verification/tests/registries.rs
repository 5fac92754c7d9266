use avm_core::types::Val;
use avm_core::vm::{BehaviorRegistry, PureFunctions};

type PureFn = fn(&[Val]) -> Option<Val>;

fn noop(_: &[Val]) -> Option<Val> {
    None
}

fn one(_: &[Val]) -> Option<Val> {
    Some(Val::Nat(1))
}

fn two(_: &[Val]) -> Option<Val> {
    Some(Val::Nat(2))
}

fn add(args: &[Val]) -> Option<Val> {
    if let [Val::Nat(a), Val::Nat(b)] = args {
        Some(Val::Nat(a + b))
    } else {
        None
    }
}

fn echo(v: Val) -> Val {
    v
}

fn nothing(_: Val) -> Val {
    Val::Nothing
}

#[test]
fn register_duplicate_fails() {
    let mut fns: PureFunctions<PureFn> = PureFunctions::new();
    assert!(fns.register("f".into(), noop));
    assert!(!fns.register("f".into(), noop));
}

#[test]
fn update_increments_version() {
    let mut fns: PureFunctions<PureFn> = PureFunctions::new();
    fns.register("f".into(), one);
    assert_eq!(fns.get("f").unwrap().version, 0);
    fns.update("f", two);
    assert_eq!(fns.get("f").unwrap().version, 1);
}

#[test]
fn registered_function_is_found_and_evaluated() {
    let mut fns: PureFunctions<PureFn> = PureFunctions::default();
    assert!(fns.register("add".into(), add));
    let entry = fns.get("add").unwrap();
    assert_eq!((entry.impl_fn)(&[Val::Nat(2), Val::Nat(3)]), Some(Val::Nat(5)));
    assert!(fns.get("missing").is_none());
    assert!(!fns.update("missing", noop));
}

#[test]
fn update_replaces_the_function() {
    let mut fns: PureFunctions<PureFn> = PureFunctions::new();
    fns.register("f".into(), one);
    assert!(fns.update("f", two));
    assert!(fns.update("f", one));
    let entry = fns.get("f").unwrap();
    assert_eq!(entry.version, 2);
    assert_eq!((entry.impl_fn)(&[]), Some(Val::Nat(1)));
}

#[test]
fn register_and_resolve() {
    let mut reg: BehaviorRegistry<fn(Val) -> Val> = BehaviorRegistry::new();
    reg.register("echo", echo);
    assert!(reg.contains("echo"));
    assert_eq!(reg.len(), 1);
    let factory = reg.factory("echo").unwrap();
    assert_eq!(factory(Val::Nat(42)), Val::Nat(42));
}

#[test]
fn unknown_behavior_returns_error() {
    let reg: BehaviorRegistry<fn(Val) -> Val> = BehaviorRegistry::new();
    let result = reg.factory("nonexistent");
    assert!(result.is_err());
    let err = result.err().unwrap();
    assert!(err.is_behavior_not_found());
    let msg = err.display_string();
    assert!(msg.contains("nonexistent"), "error should name the behavior");
}

#[test]
fn list_names() {
    let mut reg: BehaviorRegistry<fn(Val) -> Val> = BehaviorRegistry::new();
    reg.register("alpha", nothing);
    reg.register("beta", nothing);
    let mut names = reg.names();
    names.sort_unstable();
    assert_eq!(names, vec!["alpha", "beta"]);
}

#[test]
fn empty_registry() {
    let reg: BehaviorRegistry<fn(Val) -> Val> = BehaviorRegistry::default();
    assert!(reg.is_empty());
    assert_eq!(reg.len(), 0);
    assert!(reg.names().is_empty());
    assert!(!reg.contains("x"));
}
