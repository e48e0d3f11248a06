use vstd::prelude::*;

verus! {

/// Errors surfaced by context construction and lifecycle operations.
#[derive(Clone, Copy, Debug, PartialEq, Eq, Structural)]
pub enum RclrsError {
    /// Argument parsing failed during construction.
    InvalidArguments,
    /// Native resource allocation failed during construction.
    AllocationFailure,
    /// An operation needing a valid context found it already shut down.
    InvalidContext,
    /// The native shutdown or finalize call reported failure. This is fatal:
    /// the native resource is in an indeterminate state, and the embedding
    /// layer must terminate rather than keep using it.
    FinalizeFailure,
}

} // verus!
