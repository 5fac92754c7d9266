//! Composed error hierarchy mirroring the layered instruction set.
//!
//! The composition chain is `ObjError` to `BaseError` to `TxLayerError` to
//! `PureLayerError` to `AVMError`; every leaf error also converts directly
//! into `AVMError`.
use super::{
    ControllerError, FdError, IntrospectError, MachineError, NondetError, ObjError, PureError,
    ReflectError, ReifyError, TxError,
};
use vstd::prelude::*;
use vstd::std_specs::convert::{FromSpec, FromSpecImpl};

verus! {

/// Layer 0 errors: objects, introspection, reflection, reification.
#[derive(Debug)]
pub enum BaseError {
    Obj(ObjError),
    Introspect(IntrospectError),
    Reflect(ReflectError),
    Reify(ReifyError),
}

/// Layer 1 errors: base and transactions.
#[derive(Debug)]
pub enum TxLayerError {
    Base(BaseError),
    Tx(TxError),
}

/// Layer 2 errors: transactions and pure functions.
#[derive(Debug)]
pub enum PureLayerError {
    TxLayer(TxLayerError),
    Pure(PureError),
}

/// The top-level AVM error type encompassing all layers.
#[derive(Debug)]
pub enum AVMError {
    PureLayer(PureLayerError),
    Machine(MachineError),
    Controller(ControllerError),
    Fd(FdError),
    Nondet(NondetError),
}

impl From<ObjError> for BaseError {
    fn from(e: ObjError) -> (r: Self) {
        BaseError::Obj(e)
    }
}

impl FromSpecImpl<ObjError> for BaseError {
    open spec fn obeys_from_spec() -> bool {
        true
    }

    open spec fn from_spec(e: ObjError) -> BaseError {
        BaseError::Obj(e)
    }
}

impl From<IntrospectError> for BaseError {
    fn from(e: IntrospectError) -> (r: Self) {
        BaseError::Introspect(e)
    }
}

impl FromSpecImpl<IntrospectError> for BaseError {
    open spec fn obeys_from_spec() -> bool {
        true
    }

    open spec fn from_spec(e: IntrospectError) -> BaseError {
        BaseError::Introspect(e)
    }
}

impl From<ReflectError> for BaseError {
    fn from(e: ReflectError) -> (r: Self) {
        BaseError::Reflect(e)
    }
}

impl FromSpecImpl<ReflectError> for BaseError {
    open spec fn obeys_from_spec() -> bool {
        true
    }

    open spec fn from_spec(e: ReflectError) -> BaseError {
        BaseError::Reflect(e)
    }
}

impl From<ReifyError> for BaseError {
    fn from(e: ReifyError) -> (r: Self) {
        BaseError::Reify(e)
    }
}

impl FromSpecImpl<ReifyError> for BaseError {
    open spec fn obeys_from_spec() -> bool {
        true
    }

    open spec fn from_spec(e: ReifyError) -> BaseError {
        BaseError::Reify(e)
    }
}

impl From<BaseError> for TxLayerError {
    fn from(e: BaseError) -> (r: Self) {
        TxLayerError::Base(e)
    }
}

impl FromSpecImpl<BaseError> for TxLayerError {
    open spec fn obeys_from_spec() -> bool {
        true
    }

    open spec fn from_spec(e: BaseError) -> TxLayerError {
        TxLayerError::Base(e)
    }
}

impl From<TxError> for TxLayerError {
    fn from(e: TxError) -> (r: Self) {
        TxLayerError::Tx(e)
    }
}

impl FromSpecImpl<TxError> for TxLayerError {
    open spec fn obeys_from_spec() -> bool {
        true
    }

    open spec fn from_spec(e: TxError) -> TxLayerError {
        TxLayerError::Tx(e)
    }
}

impl From<TxLayerError> for PureLayerError {
    fn from(e: TxLayerError) -> (r: Self) {
        PureLayerError::TxLayer(e)
    }
}

impl FromSpecImpl<TxLayerError> for PureLayerError {
    open spec fn obeys_from_spec() -> bool {
        true
    }

    open spec fn from_spec(e: TxLayerError) -> PureLayerError {
        PureLayerError::TxLayer(e)
    }
}

impl From<PureError> for PureLayerError {
    fn from(e: PureError) -> (r: Self) {
        PureLayerError::Pure(e)
    }
}

impl FromSpecImpl<PureError> for PureLayerError {
    open spec fn obeys_from_spec() -> bool {
        true
    }

    open spec fn from_spec(e: PureError) -> PureLayerError {
        PureLayerError::Pure(e)
    }
}

impl From<PureLayerError> for AVMError {
    fn from(e: PureLayerError) -> (r: Self) {
        AVMError::PureLayer(e)
    }
}

impl FromSpecImpl<PureLayerError> for AVMError {
    open spec fn obeys_from_spec() -> bool {
        true
    }

    open spec fn from_spec(e: PureLayerError) -> AVMError {
        AVMError::PureLayer(e)
    }
}

impl From<MachineError> for AVMError {
    fn from(e: MachineError) -> (r: Self) {
        AVMError::Machine(e)
    }
}

impl FromSpecImpl<MachineError> for AVMError {
    open spec fn obeys_from_spec() -> bool {
        true
    }

    open spec fn from_spec(e: MachineError) -> AVMError {
        AVMError::Machine(e)
    }
}

impl From<ControllerError> for AVMError {
    fn from(e: ControllerError) -> (r: Self) {
        AVMError::Controller(e)
    }
}

impl FromSpecImpl<ControllerError> for AVMError {
    open spec fn obeys_from_spec() -> bool {
        true
    }

    open spec fn from_spec(e: ControllerError) -> AVMError {
        AVMError::Controller(e)
    }
}

impl From<FdError> for AVMError {
    fn from(e: FdError) -> (r: Self) {
        AVMError::Fd(e)
    }
}

impl FromSpecImpl<FdError> for AVMError {
    open spec fn obeys_from_spec() -> bool {
        true
    }

    open spec fn from_spec(e: FdError) -> AVMError {
        AVMError::Fd(e)
    }
}

impl From<NondetError> for AVMError {
    fn from(e: NondetError) -> (r: Self) {
        AVMError::Nondet(e)
    }
}

impl FromSpecImpl<NondetError> for AVMError {
    open spec fn obeys_from_spec() -> bool {
        true
    }

    open spec fn from_spec(e: NondetError) -> AVMError {
        AVMError::Nondet(e)
    }
}

impl From<ObjError> for AVMError {
    fn from(e: ObjError) -> (r: Self) {
        AVMError::PureLayer(PureLayerError::TxLayer(TxLayerError::Base(BaseError::Obj(e))))
    }
}

impl FromSpecImpl<ObjError> for AVMError {
    open spec fn obeys_from_spec() -> bool {
        true
    }

    open spec fn from_spec(e: ObjError) -> AVMError {
        AVMError::PureLayer(PureLayerError::TxLayer(TxLayerError::Base(BaseError::Obj(e))))
    }
}

impl From<IntrospectError> for AVMError {
    fn from(e: IntrospectError) -> (r: Self) {
        AVMError::PureLayer(PureLayerError::TxLayer(TxLayerError::Base(BaseError::Introspect(e))))
    }
}

impl FromSpecImpl<IntrospectError> for AVMError {
    open spec fn obeys_from_spec() -> bool {
        true
    }

    open spec fn from_spec(e: IntrospectError) -> AVMError {
        AVMError::PureLayer(PureLayerError::TxLayer(TxLayerError::Base(BaseError::Introspect(e))))
    }
}

impl From<ReflectError> for AVMError {
    fn from(e: ReflectError) -> (r: Self) {
        AVMError::PureLayer(PureLayerError::TxLayer(TxLayerError::Base(BaseError::Reflect(e))))
    }
}

impl FromSpecImpl<ReflectError> for AVMError {
    open spec fn obeys_from_spec() -> bool {
        true
    }

    open spec fn from_spec(e: ReflectError) -> AVMError {
        AVMError::PureLayer(PureLayerError::TxLayer(TxLayerError::Base(BaseError::Reflect(e))))
    }
}

impl From<ReifyError> for AVMError {
    fn from(e: ReifyError) -> (r: Self) {
        AVMError::PureLayer(PureLayerError::TxLayer(TxLayerError::Base(BaseError::Reify(e))))
    }
}

impl FromSpecImpl<ReifyError> for AVMError {
    open spec fn obeys_from_spec() -> bool {
        true
    }

    open spec fn from_spec(e: ReifyError) -> AVMError {
        AVMError::PureLayer(PureLayerError::TxLayer(TxLayerError::Base(BaseError::Reify(e))))
    }
}

impl From<TxError> for AVMError {
    fn from(e: TxError) -> (r: Self) {
        AVMError::PureLayer(PureLayerError::TxLayer(TxLayerError::Tx(e)))
    }
}

impl FromSpecImpl<TxError> for AVMError {
    open spec fn obeys_from_spec() -> bool {
        true
    }

    open spec fn from_spec(e: TxError) -> AVMError {
        AVMError::PureLayer(PureLayerError::TxLayer(TxLayerError::Tx(e)))
    }
}

impl From<PureError> for AVMError {
    fn from(e: PureError) -> (r: Self) {
        AVMError::PureLayer(PureLayerError::Pure(e))
    }
}

impl FromSpecImpl<PureError> for AVMError {
    open spec fn obeys_from_spec() -> bool {
        true
    }

    open spec fn from_spec(e: PureError) -> AVMError {
        AVMError::PureLayer(PureLayerError::Pure(e))
    }
}

impl AVMError {
    /// Whether this is an object-not-found error.
    pub fn is_not_found(&self) -> (b: bool)
        ensures
            b == (*self matches AVMError::PureLayer(
                PureLayerError::TxLayer(TxLayerError::Base(BaseError::Obj(ObjError::NotFound(_)))),
            )),
    {
        match self {
            AVMError::PureLayer(
                PureLayerError::TxLayer(TxLayerError::Base(BaseError::Obj(ObjError::NotFound(_)))),
            ) => true,
            _ => false,
        }
    }

    /// Whether this is a transaction conflict error.
    pub fn is_conflict(&self) -> (b: bool)
        ensures
            b == (*self matches AVMError::PureLayer(
                PureLayerError::TxLayer(TxLayerError::Tx(TxError::Conflict(_))),
            )),
    {
        match self {
            AVMError::PureLayer(PureLayerError::TxLayer(TxLayerError::Tx(TxError::Conflict(_)))) => true,
            _ => false,
        }
    }

    /// Whether this is a behavior-not-found error.
    pub fn is_behavior_not_found(&self) -> (b: bool)
        ensures
            b == (*self matches AVMError::PureLayer(
                PureLayerError::TxLayer(
                    TxLayerError::Base(BaseError::Obj(ObjError::BehaviorNotFound(_))),
                ),
            )),
    {
        match self {
            AVMError::PureLayer(
                PureLayerError::TxLayer(
                    TxLayerError::Base(BaseError::Obj(ObjError::BehaviorNotFound(_))),
                ),
            ) => true,
            _ => false,
        }
    }

    /// Whether this is a no-active-transaction error.
    pub fn is_no_active_tx(&self) -> (b: bool)
        ensures
            b == (*self matches AVMError::PureLayer(
                PureLayerError::TxLayer(TxLayerError::Tx(TxError::NoActiveTx)),
            )),
    {
        match self {
            AVMError::PureLayer(PureLayerError::TxLayer(TxLayerError::Tx(TxError::NoActiveTx))) => true,
            _ => false,
        }
    }

    /// The underlying [`ObjError`], if this is one.
    pub fn as_obj_error(&self) -> (r: Option<&ObjError>)
        ensures
            match *self {
                AVMError::PureLayer(PureLayerError::TxLayer(TxLayerError::Base(BaseError::Obj(e)))) => r == Some(&e),
                _ => r is None,
            },
    {
        match self {
            AVMError::PureLayer(PureLayerError::TxLayer(TxLayerError::Base(BaseError::Obj(e)))) => Some(e),
            _ => None,
        }
    }

    /// The underlying [`TxError`], if this is one.
    pub fn as_tx_error(&self) -> (r: Option<&TxError>)
        ensures
            match *self {
                AVMError::PureLayer(PureLayerError::TxLayer(TxLayerError::Tx(e))) => r == Some(&e),
                _ => r is None,
            },
    {
        match self {
            AVMError::PureLayer(PureLayerError::TxLayer(TxLayerError::Tx(e))) => Some(e),
            _ => None,
        }
    }
}

/// A leaf error converted into an [`AVMError`] is found again where the
/// accessors look: an object error sits in the object layer, where
/// `as_obj_error` returns it, and a transaction error in the transaction
/// layer, where `as_tx_error` returns it.
pub proof fn lemma_leaf_errors_round_trip(o: ObjError, t: TxError)
    ensures
        <AVMError as FromSpec<ObjError>>::from_spec(o) matches AVMError::PureLayer(
            PureLayerError::TxLayer(TxLayerError::Base(BaseError::Obj(e))),
        ) && e == o,
        <AVMError as FromSpec<TxError>>::from_spec(t) matches AVMError::PureLayer(
            PureLayerError::TxLayer(TxLayerError::Tx(e)),
        ) && e == t,
{
}

} // verus!
