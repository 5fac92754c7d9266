use avm_core::error::{
    AVMError, BaseError, ControllerError, FdError, IntrospectError, MachineError, NondetError,
    ObjError, PureError, PureLayerError, ReflectError, ReifyError, TxError, TxLayerError,
};
use avm_core::types::{ControllerId, MachineId, ObjectId, TxId, Val};

#[test]
fn leaf_error_converts_to_avm_error() {
    let obj_err = ObjError::NotFound(ObjectId(0));
    let avm_err: AVMError = obj_err.into();
    assert!(matches!(
        avm_err,
        AVMError::PureLayer(PureLayerError::TxLayer(TxLayerError::Base(BaseError::Obj(
            ObjError::NotFound(_)
        ))))
    ));
}

#[test]
fn tx_error_converts() {
    let tx_err = TxError::NoActiveTx;
    let avm_err: AVMError = tx_err.into();
    let msg = avm_err.display_string();
    assert_eq!(msg, "no active transaction");
}

#[test]
fn machine_error_converts() {
    let err = MachineError::TeleportDuringTx;
    let avm_err: AVMError = err.into();
    assert!(matches!(avm_err, AVMError::Machine(_)));
}

#[test]
fn error_display_messages() {
    let err = ObjError::NotFound(ObjectId(42));
    assert_eq!(err.display_string(), "object not found: obj:42");
}

#[test]
fn is_not_found_true_for_obj_not_found() {
    let err: AVMError = ObjError::NotFound(ObjectId(1)).into();
    assert!(err.is_not_found());
    assert!(!err.is_conflict());
    assert!(!err.is_behavior_not_found());
    assert!(!err.is_no_active_tx());
}

#[test]
fn is_not_found_false_for_other_errors() {
    let err: AVMError = TxError::NoActiveTx.into();
    assert!(!err.is_not_found());
}

#[test]
fn is_conflict_true_for_tx_conflict() {
    let err: AVMError = TxError::Conflict(TxId(9)).into();
    assert!(err.is_conflict());
    assert!(!err.is_not_found());
}

#[test]
fn is_behavior_not_found_true() {
    let err: AVMError = ObjError::BehaviorNotFound("foo".into()).into();
    assert!(err.is_behavior_not_found());
    assert!(!err.is_not_found());
}

#[test]
fn is_no_active_tx_true() {
    let err: AVMError = TxError::NoActiveTx.into();
    assert!(err.is_no_active_tx());
    assert!(!err.is_conflict());
}

#[test]
fn as_obj_error_extracts_obj_error() {
    let err: AVMError = ObjError::NotFound(ObjectId(5)).into();
    assert!(matches!(err.as_obj_error(), Some(ObjError::NotFound(_))));
    assert!(err.as_tx_error().is_none());
}

#[test]
fn as_tx_error_extracts_tx_error() {
    let err: AVMError = TxError::NoActiveTx.into();
    assert!(matches!(err.as_tx_error(), Some(TxError::NoActiveTx)));
    assert!(err.as_obj_error().is_none());
}

#[test]
fn is_not_found_used_in_error_check() {
    let err: AVMError = ObjError::NotFound(ObjectId(42)).into();
    let handled = if err.is_not_found() { "missing" } else { "other" };
    assert_eq!(handled, "missing");
}

#[test]
fn every_leaf_family_lands_in_its_layer() {
    let e: AVMError = IntrospectError::ContextUnavailable.into();
    assert!(matches!(
        e,
        AVMError::PureLayer(PureLayerError::TxLayer(TxLayerError::Base(BaseError::Introspect(_))))
    ));
    let e: AVMError = ReflectError::StoreCorruption.into();
    assert!(matches!(
        e,
        AVMError::PureLayer(PureLayerError::TxLayer(TxLayerError::Base(BaseError::Reflect(_))))
    ));
    let e: AVMError = ReifyError::NoTransaction.into();
    assert!(matches!(
        e,
        AVMError::PureLayer(PureLayerError::TxLayer(TxLayerError::Base(BaseError::Reify(_))))
    ));
    let e: AVMError = TxError::InvalidDuringTx.into();
    assert!(matches!(e, AVMError::PureLayer(PureLayerError::TxLayer(TxLayerError::Tx(_)))));
    let e: AVMError = PureError::NotFound("f".into()).into();
    assert!(matches!(e, AVMError::PureLayer(PureLayerError::Pure(_))));
    let e: AVMError = ControllerError::FreezeFailed(ObjectId(1)).into();
    assert!(matches!(e, AVMError::Controller(_)));
    let e: AVMError = FdError::NotImplemented("x".into()).into();
    assert!(matches!(e, AVMError::Fd(_)));
    let e: AVMError = NondetError::NotImplemented("y".into()).into();
    assert!(matches!(e, AVMError::Nondet(_)));
    let e = AVMError::PureLayer(PureLayerError::TxLayer(TxLayerError::Base(BaseError::Obj(
        ObjError::RejectedCall(ObjectId(3)),
    ))));
    assert!(e.is_not_found() == false);
    assert_eq!(e.display_string(), "object rejected call: obj:3");
}

#[test]
fn leaf_messages() {
    assert_eq!(
        ObjError::InvalidInput(ObjectId(2), Val::Nat(7)).display_string(),
        "invalid input for obj:2: 7"
    );
    assert_eq!(
        ObjError::BehaviorNotFound("echo".into()).display_string(),
        "behavior not found: \"echo\""
    );
    assert_eq!(
        ObjError::AlreadyDestroyed(ObjectId(1)).display_string(),
        "object already destroyed: obj:1"
    );
    assert_eq!(TxError::Conflict(TxId(4)).display_string(), "transaction conflict: tx:4");
    assert_eq!(
        TxError::InvalidDuringTx.display_string(),
        "operation invalid during active transaction"
    );
    assert_eq!(
        PureError::VersionConflict("f".into()).display_string(),
        "version conflict for function: f"
    );
    assert_eq!(
        MachineError::Unreachable(MachineId("m2".into())).display_string(),
        "machine unreachable: machine:m2"
    );
    assert_eq!(
        ControllerError::Unreachable(ControllerId("c9".into())).display_string(),
        "controller unreachable: ctrl:c9"
    );
    assert_eq!(
        ControllerError::NoController(ObjectId(8)).display_string(),
        "object has no controller: obj:8"
    );
    assert_eq!(IntrospectError::ContextUnavailable.display_string(), "execution context unavailable");
    assert_eq!(ReflectError::MetadataNotFound(ObjectId(6)).display_string(), "metadata not found for obj:6");
    assert_eq!(ReifyError::ConstraintStoreUnavailable.display_string(), "constraint store unavailable");
    assert_eq!(
        FdError::NotImplemented("newVar".into()).display_string(),
        "FD constraint solver not implemented: newVar"
    );
    assert_eq!(
        NondetError::NotImplemented("choose".into()).display_string(),
        "nondeterminism not implemented: choose"
    );
}

#[test]
fn composed_errors_show_the_wrapped_message() {
    let e: AVMError = ControllerError::CrossControllerTx(ObjectId(11)).into();
    assert_eq!(e.display_string(), "cross-controller transaction for obj:11");
    let e: AVMError = PureError::AlreadyRegistered("add".into()).into();
    assert_eq!(e.display_string(), "function already registered: add");
    let layer = TxLayerError::Tx(TxError::NotFound(TxId(2)));
    assert_eq!(layer.display_string(), "transaction not found: tx:2");
}
