//! Pure function layer errors.

use vstd::prelude::*;

verus! {

#[derive(Debug)]
pub enum PureError {
    NotFound(String),
    AlreadyRegistered(String),
    VersionConflict(String),
}

} // verus!
