//! The messages of the errors.
//!
//! Every leaf error has a fixed message with its arguments; a composed error
//! shows the message of the error it wraps.
use super::{
    AVMError, BaseError, ControllerError, FdError, IntrospectError, MachineError, NondetError,
    ObjError, PureError, PureLayerError, ReflectError, ReifyError, TxError, TxLayerError,
};
use crate::types::ids::{controller_id_text, machine_id_text, object_id_text, tx_id_text};
use crate::types::val::val_text;
use vstd::prelude::*;

verus! {

/// The message of a [`ObjError`].
pub open spec fn obj_error_text(e: ObjError) -> Seq<char> {
    match e {
        ObjError::NotFound(a) => "object not found: "@ + object_id_text(a),
        ObjError::AlreadyDestroyed(a) => "object already destroyed: "@ + object_id_text(a),
        ObjError::AlreadyExists(a) => "object already exists: "@ + object_id_text(a),
        ObjError::InvalidInput(a, b) => "invalid input for "@ + object_id_text(a) + ": "@ + val_text(b@),
        ObjError::RejectedCall(a) => "object rejected call: "@ + object_id_text(a),
        ObjError::MetadataCorruption(a) => "metadata corruption for "@ + object_id_text(a),
        ObjError::BehaviorNotFound(a) => "behavior not found: \""@ + a@ + "\""@,
        ObjError::Halted(a) => "program halted: "@ + a@,
    }
}

impl ObjError {
    /// Appends the message of this error to `out`.
    pub fn write_to(&self, out: &mut String)
        ensures
            final(out)@ == old(out)@ + obj_error_text(*self),
    {
        let ghost start = out@;
        match self {
            ObjError::NotFound(a) => {
                out.append("object not found: ");
                a.write_to(out);
            },
            ObjError::AlreadyDestroyed(a) => {
                out.append("object already destroyed: ");
                a.write_to(out);
            },
            ObjError::AlreadyExists(a) => {
                out.append("object already exists: ");
                a.write_to(out);
            },
            ObjError::InvalidInput(a, b) => {
                out.append("invalid input for ");
                a.write_to(out);
                out.append(": ");
                b.write_to(out);
            },
            ObjError::RejectedCall(a) => {
                out.append("object rejected call: ");
                a.write_to(out);
            },
            ObjError::MetadataCorruption(a) => {
                out.append("metadata corruption for ");
                a.write_to(out);
            },
            ObjError::BehaviorNotFound(a) => {
                out.append("behavior not found: \"");
                out.append(a.as_str());
                out.append("\"");
            },
            ObjError::Halted(a) => {
                out.append("program halted: ");
                out.append(a.as_str());
            },
        }
        assert(out@ =~= start + obj_error_text(*self));
    }

    /// The message of this error.
    pub fn display_string(&self) -> (s: String)
        ensures
            s@ == obj_error_text(*self),
    {
        let mut s = String::new();
        self.write_to(&mut s);
        s
    }
}

/// The message of a [`IntrospectError`].
pub open spec fn introspect_error_text(e: IntrospectError) -> Seq<char> {
    match e {
        IntrospectError::ContextUnavailable => "execution context unavailable"@,
    }
}

impl IntrospectError {
    /// Appends the message of this error to `out`.
    pub fn write_to(&self, out: &mut String)
        ensures
            final(out)@ == old(out)@ + introspect_error_text(*self),
    {
        let ghost start = out@;
        match self {
            IntrospectError::ContextUnavailable => {
                out.append("execution context unavailable");
            },
        }
        assert(out@ =~= start + introspect_error_text(*self));
    }

    /// The message of this error.
    pub fn display_string(&self) -> (s: String)
        ensures
            s@ == introspect_error_text(*self),
    {
        let mut s = String::new();
        self.write_to(&mut s);
        s
    }
}

/// The message of a [`ReflectError`].
pub open spec fn reflect_error_text(e: ReflectError) -> Seq<char> {
    match e {
        ReflectError::MetadataNotFound(a) => "metadata not found for "@ + object_id_text(a),
        ReflectError::MetadataInconsistent(a) => "metadata inconsistent for "@ + object_id_text(a),
        ReflectError::StoreCorruption => "store corruption detected"@,
        ReflectError::ScryPredicateFailed => "scry predicate failed"@,
        ReflectError::ReflectionDenied => "reflection denied"@,
    }
}

impl ReflectError {
    /// Appends the message of this error to `out`.
    pub fn write_to(&self, out: &mut String)
        ensures
            final(out)@ == old(out)@ + reflect_error_text(*self),
    {
        let ghost start = out@;
        match self {
            ReflectError::MetadataNotFound(a) => {
                out.append("metadata not found for ");
                a.write_to(out);
            },
            ReflectError::MetadataInconsistent(a) => {
                out.append("metadata inconsistent for ");
                a.write_to(out);
            },
            ReflectError::StoreCorruption => {
                out.append("store corruption detected");
            },
            ReflectError::ScryPredicateFailed => {
                out.append("scry predicate failed");
            },
            ReflectError::ReflectionDenied => {
                out.append("reflection denied");
            },
        }
        assert(out@ =~= start + reflect_error_text(*self));
    }

    /// The message of this error.
    pub fn display_string(&self) -> (s: String)
        ensures
            s@ == reflect_error_text(*self),
    {
        let mut s = String::new();
        self.write_to(&mut s);
        s
    }
}

/// The message of a [`ReifyError`].
pub open spec fn reify_error_text(e: ReifyError) -> Seq<char> {
    match e {
        ReifyError::ContextFailed => "failed to reify execution context"@,
        ReifyError::NoTransaction => "no active transaction to reify"@,
        ReifyError::TxStateAccessDenied => "transaction state access denied"@,
        ReifyError::ConstraintStoreUnavailable => "constraint store unavailable"@,
    }
}

impl ReifyError {
    /// Appends the message of this error to `out`.
    pub fn write_to(&self, out: &mut String)
        ensures
            final(out)@ == old(out)@ + reify_error_text(*self),
    {
        let ghost start = out@;
        match self {
            ReifyError::ContextFailed => {
                out.append("failed to reify execution context");
            },
            ReifyError::NoTransaction => {
                out.append("no active transaction to reify");
            },
            ReifyError::TxStateAccessDenied => {
                out.append("transaction state access denied");
            },
            ReifyError::ConstraintStoreUnavailable => {
                out.append("constraint store unavailable");
            },
        }
        assert(out@ =~= start + reify_error_text(*self));
    }

    /// The message of this error.
    pub fn display_string(&self) -> (s: String)
        ensures
            s@ == reify_error_text(*self),
    {
        let mut s = String::new();
        self.write_to(&mut s);
        s
    }
}

/// The message of a [`TxError`].
pub open spec fn tx_error_text(e: TxError) -> Seq<char> {
    match e {
        TxError::Conflict(a) => "transaction conflict: "@ + tx_id_text(a),
        TxError::NotFound(a) => "transaction not found: "@ + tx_id_text(a),
        TxError::AlreadyCommitted(a) => "transaction already committed: "@ + tx_id_text(a),
        TxError::AlreadyAborted(a) => "transaction already aborted: "@ + tx_id_text(a),
        TxError::NoActiveTx => "no active transaction"@,
        TxError::InvalidDuringTx => "operation invalid during active transaction"@,
    }
}

impl TxError {
    /// Appends the message of this error to `out`.
    pub fn write_to(&self, out: &mut String)
        ensures
            final(out)@ == old(out)@ + tx_error_text(*self),
    {
        let ghost start = out@;
        match self {
            TxError::Conflict(a) => {
                out.append("transaction conflict: ");
                a.write_to(out);
            },
            TxError::NotFound(a) => {
                out.append("transaction not found: ");
                a.write_to(out);
            },
            TxError::AlreadyCommitted(a) => {
                out.append("transaction already committed: ");
                a.write_to(out);
            },
            TxError::AlreadyAborted(a) => {
                out.append("transaction already aborted: ");
                a.write_to(out);
            },
            TxError::NoActiveTx => {
                out.append("no active transaction");
            },
            TxError::InvalidDuringTx => {
                out.append("operation invalid during active transaction");
            },
        }
        assert(out@ =~= start + tx_error_text(*self));
    }

    /// The message of this error.
    pub fn display_string(&self) -> (s: String)
        ensures
            s@ == tx_error_text(*self),
    {
        let mut s = String::new();
        self.write_to(&mut s);
        s
    }
}

/// The message of a [`PureError`].
pub open spec fn pure_error_text(e: PureError) -> Seq<char> {
    match e {
        PureError::NotFound(a) => "function not found: "@ + a@,
        PureError::AlreadyRegistered(a) => "function already registered: "@ + a@,
        PureError::VersionConflict(a) => "version conflict for function: "@ + a@,
    }
}

impl PureError {
    /// Appends the message of this error to `out`.
    pub fn write_to(&self, out: &mut String)
        ensures
            final(out)@ == old(out)@ + pure_error_text(*self),
    {
        let ghost start = out@;
        match self {
            PureError::NotFound(a) => {
                out.append("function not found: ");
                out.append(a.as_str());
            },
            PureError::AlreadyRegistered(a) => {
                out.append("function already registered: ");
                out.append(a.as_str());
            },
            PureError::VersionConflict(a) => {
                out.append("version conflict for function: ");
                out.append(a.as_str());
            },
        }
        assert(out@ =~= start + pure_error_text(*self));
    }

    /// The message of this error.
    pub fn display_string(&self) -> (s: String)
        ensures
            s@ == pure_error_text(*self),
    {
        let mut s = String::new();
        self.write_to(&mut s);
        s
    }
}

/// The message of a [`MachineError`].
pub open spec fn machine_error_text(e: MachineError) -> Seq<char> {
    match e {
        MachineError::Unreachable(a) => "machine unreachable: "@ + machine_id_text(a),
        MachineError::InvalidTransfer => "invalid machine transfer"@,
        MachineError::TeleportDuringTx => "teleport forbidden during active transaction"@,
    }
}

impl MachineError {
    /// Appends the message of this error to `out`.
    pub fn write_to(&self, out: &mut String)
        ensures
            final(out)@ == old(out)@ + machine_error_text(*self),
    {
        let ghost start = out@;
        match self {
            MachineError::Unreachable(a) => {
                out.append("machine unreachable: ");
                a.write_to(out);
            },
            MachineError::InvalidTransfer => {
                out.append("invalid machine transfer");
            },
            MachineError::TeleportDuringTx => {
                out.append("teleport forbidden during active transaction");
            },
        }
        assert(out@ =~= start + machine_error_text(*self));
    }

    /// The message of this error.
    pub fn display_string(&self) -> (s: String)
        ensures
            s@ == machine_error_text(*self),
    {
        let mut s = String::new();
        self.write_to(&mut s);
        s
    }
}

/// The message of a [`ControllerError`].
pub open spec fn controller_error_text(e: ControllerError) -> Seq<char> {
    match e {
        ControllerError::Unreachable(a) => "controller unreachable: "@ + controller_id_text(a),
        ControllerError::UnauthorizedTransfer(a) => "unauthorized transfer of "@ + object_id_text(a),
        ControllerError::CrossControllerTx(a) => "cross-controller transaction for "@ + object_id_text(a),
        ControllerError::NotAvailable(a) => "object not available: "@ + object_id_text(a),
        ControllerError::NotConsistent(a) => "object not consistent: "@ + object_id_text(a),
        ControllerError::FreezeFailed(a) => "freeze failed for "@ + object_id_text(a),
        ControllerError::NoController(a) => "object has no controller: "@ + object_id_text(a),
    }
}

impl ControllerError {
    /// Appends the message of this error to `out`.
    pub fn write_to(&self, out: &mut String)
        ensures
            final(out)@ == old(out)@ + controller_error_text(*self),
    {
        let ghost start = out@;
        match self {
            ControllerError::Unreachable(a) => {
                out.append("controller unreachable: ");
                a.write_to(out);
            },
            ControllerError::UnauthorizedTransfer(a) => {
                out.append("unauthorized transfer of ");
                a.write_to(out);
            },
            ControllerError::CrossControllerTx(a) => {
                out.append("cross-controller transaction for ");
                a.write_to(out);
            },
            ControllerError::NotAvailable(a) => {
                out.append("object not available: ");
                a.write_to(out);
            },
            ControllerError::NotConsistent(a) => {
                out.append("object not consistent: ");
                a.write_to(out);
            },
            ControllerError::FreezeFailed(a) => {
                out.append("freeze failed for ");
                a.write_to(out);
            },
            ControllerError::NoController(a) => {
                out.append("object has no controller: ");
                a.write_to(out);
            },
        }
        assert(out@ =~= start + controller_error_text(*self));
    }

    /// The message of this error.
    pub fn display_string(&self) -> (s: String)
        ensures
            s@ == controller_error_text(*self),
    {
        let mut s = String::new();
        self.write_to(&mut s);
        s
    }
}

/// The message of a [`FdError`].
pub open spec fn fd_error_text(e: FdError) -> Seq<char> {
    match e {
        FdError::NotImplemented(a) => "FD constraint solver not implemented: "@ + a@,
    }
}

impl FdError {
    /// Appends the message of this error to `out`.
    pub fn write_to(&self, out: &mut String)
        ensures
            final(out)@ == old(out)@ + fd_error_text(*self),
    {
        let ghost start = out@;
        match self {
            FdError::NotImplemented(a) => {
                out.append("FD constraint solver not implemented: ");
                out.append(a.as_str());
            },
        }
        assert(out@ =~= start + fd_error_text(*self));
    }

    /// The message of this error.
    pub fn display_string(&self) -> (s: String)
        ensures
            s@ == fd_error_text(*self),
    {
        let mut s = String::new();
        self.write_to(&mut s);
        s
    }
}

/// The message of a [`NondetError`].
pub open spec fn nondet_error_text(e: NondetError) -> Seq<char> {
    match e {
        NondetError::NotImplemented(a) => "nondeterminism not implemented: "@ + a@,
    }
}

impl NondetError {
    /// Appends the message of this error to `out`.
    pub fn write_to(&self, out: &mut String)
        ensures
            final(out)@ == old(out)@ + nondet_error_text(*self),
    {
        let ghost start = out@;
        match self {
            NondetError::NotImplemented(a) => {
                out.append("nondeterminism not implemented: ");
                out.append(a.as_str());
            },
        }
        assert(out@ =~= start + nondet_error_text(*self));
    }

    /// The message of this error.
    pub fn display_string(&self) -> (s: String)
        ensures
            s@ == nondet_error_text(*self),
    {
        let mut s = String::new();
        self.write_to(&mut s);
        s
    }
}

/// The message of a [`BaseError`]: that of the error it wraps.
pub open spec fn base_error_text(e: BaseError) -> Seq<char> {
    match e {
        BaseError::Obj(inner) => obj_error_text(inner),
        BaseError::Introspect(inner) => introspect_error_text(inner),
        BaseError::Reflect(inner) => reflect_error_text(inner),
        BaseError::Reify(inner) => reify_error_text(inner),
    }
}

impl BaseError {
    /// Appends the message of this error to `out`.
    pub fn write_to(&self, out: &mut String)
        ensures
            final(out)@ == old(out)@ + base_error_text(*self),
    {
        match self {
            BaseError::Obj(inner) => inner.write_to(out),
            BaseError::Introspect(inner) => inner.write_to(out),
            BaseError::Reflect(inner) => inner.write_to(out),
            BaseError::Reify(inner) => inner.write_to(out),
        }
    }

    /// The message of this error.
    pub fn display_string(&self) -> (s: String)
        ensures
            s@ == base_error_text(*self),
    {
        let mut s = String::new();
        self.write_to(&mut s);
        s
    }
}

/// The message of a [`TxLayerError`]: that of the error it wraps.
pub open spec fn tx_layer_error_text(e: TxLayerError) -> Seq<char> {
    match e {
        TxLayerError::Base(inner) => base_error_text(inner),
        TxLayerError::Tx(inner) => tx_error_text(inner),
    }
}

impl TxLayerError {
    /// Appends the message of this error to `out`.
    pub fn write_to(&self, out: &mut String)
        ensures
            final(out)@ == old(out)@ + tx_layer_error_text(*self),
    {
        match self {
            TxLayerError::Base(inner) => inner.write_to(out),
            TxLayerError::Tx(inner) => inner.write_to(out),
        }
    }

    /// The message of this error.
    pub fn display_string(&self) -> (s: String)
        ensures
            s@ == tx_layer_error_text(*self),
    {
        let mut s = String::new();
        self.write_to(&mut s);
        s
    }
}

/// The message of a [`PureLayerError`]: that of the error it wraps.
pub open spec fn pure_layer_error_text(e: PureLayerError) -> Seq<char> {
    match e {
        PureLayerError::TxLayer(inner) => tx_layer_error_text(inner),
        PureLayerError::Pure(inner) => pure_error_text(inner),
    }
}

impl PureLayerError {
    /// Appends the message of this error to `out`.
    pub fn write_to(&self, out: &mut String)
        ensures
            final(out)@ == old(out)@ + pure_layer_error_text(*self),
    {
        match self {
            PureLayerError::TxLayer(inner) => inner.write_to(out),
            PureLayerError::Pure(inner) => inner.write_to(out),
        }
    }

    /// The message of this error.
    pub fn display_string(&self) -> (s: String)
        ensures
            s@ == pure_layer_error_text(*self),
    {
        let mut s = String::new();
        self.write_to(&mut s);
        s
    }
}

/// The message of a [`AVMError`]: that of the error it wraps.
pub open spec fn avm_error_text(e: AVMError) -> Seq<char> {
    match e {
        AVMError::PureLayer(inner) => pure_layer_error_text(inner),
        AVMError::Machine(inner) => machine_error_text(inner),
        AVMError::Controller(inner) => controller_error_text(inner),
        AVMError::Fd(inner) => fd_error_text(inner),
        AVMError::Nondet(inner) => nondet_error_text(inner),
    }
}

impl AVMError {
    /// Appends the message of this error to `out`.
    pub fn write_to(&self, out: &mut String)
        ensures
            final(out)@ == old(out)@ + avm_error_text(*self),
    {
        match self {
            AVMError::PureLayer(inner) => inner.write_to(out),
            AVMError::Machine(inner) => inner.write_to(out),
            AVMError::Controller(inner) => inner.write_to(out),
            AVMError::Fd(inner) => inner.write_to(out),
            AVMError::Nondet(inner) => inner.write_to(out),
        }
    }

    /// The message of this error, e.g. `object not found: obj:42`.
    pub fn display_string(&self) -> (s: String)
        ensures
            s@ == avm_error_text(*self),
    {
        let mut s = String::new();
        self.write_to(&mut s);
        s
    }
}

} // verus!
