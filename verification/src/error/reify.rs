//! Reification-layer errors.

use vstd::prelude::*;

verus! {

#[derive(Debug)]
pub enum ReifyError {
    ContextFailed,
    NoTransaction,
    TxStateAccessDenied,
    ConstraintStoreUnavailable,
}

} // verus!
