//! Finite-domain and nondeterminism errors.

use vstd::prelude::*;

verus! {

#[derive(Debug)]
pub enum FdError {
    NotImplemented(String),
}

#[derive(Debug)]
pub enum NondetError {
    NotImplemented(String),
}

} // verus!
