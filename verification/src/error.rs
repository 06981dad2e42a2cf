//! The error taxonomy of the task service.

use vstd::prelude::*;

verus! {

/// Typed errors surfaced by the task service.
///
/// `StateNotFound` is the raw resolver-level signal that a state lookup
/// matched nothing; the service always translates it to
/// `ProgressStateNotFound` before it reaches a caller.
#[derive(Clone, Copy, Debug, PartialEq, Eq, Structural)]
pub enum Error {
    /// No task matches the given identifier or number.
    NotFound,
    /// Resolver-level signal: a state lookup matched nothing.
    StateNotFound,
    /// A caller-supplied state or progress reference resolves to no known state.
    ProgressStateNotFound,
    /// A parameter could not be parsed into its expected type.
    InvalidParam,
    /// An underlying persistence failure, propagated unchanged.
    StorageError,
}

} // verus!
