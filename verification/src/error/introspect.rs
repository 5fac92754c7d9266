//! Introspection-layer errors.

use vstd::prelude::*;

verus! {

#[derive(Debug)]
pub enum IntrospectError {
    ContextUnavailable,
}

} // verus!
