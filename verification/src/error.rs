//! The typed failures an entry point can surface.

use vstd::prelude::*;

verus! {

/// Why an entry point failed.
#[derive(Clone, Copy, Debug, PartialEq, Eq, Structural)]
pub enum ContractError {
    /// Execute or query was invoked before initialization.
    NotFound,
    /// Initialize was invoked while a record already exists.
    AlreadyInitialized,
    /// Increment was invoked while the count is already at its maximum.
    Overflow,
    /// The host's load/save primitive itself failed; propagated, never produced
    /// by the in-memory store.
    StorageFailure,
}

} // verus!
