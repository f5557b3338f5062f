//! Completion-correlation engine for a kernel submission/completion ring.
//!
//! The kernel ring itself (memory-mapped queues, syscall batching) is an
//! outside collaborator; this crate holds the verified logic around it: the
//! operation registry that assigns each submission a unique identity and
//! tracks it from preparation through completion, cancellation or delivery,
//! the decision rules that drive flushing, back-pressure and waiting, and the
//! decoder that turns a raw completion code back into a typed outcome.

use vstd::prelude::*;

pub mod buf;
pub mod laws;
pub mod protocol;
pub mod registry;
pub mod result;
pub mod sqe;

verus! {

/// Why an internal-consistency check failed.
///
/// None of these is reachable through a legal sequence of public calls; they
/// are defensive checks on invariants the engine relies on.
#[derive(Debug, Clone, Copy, PartialEq, Eq, Structural)]
pub enum InternalReason {
    /// The ring reported a completion whose identity is not in the registry.
    UnknownCompletion(u64),
    /// A wait exhausted all outstanding completions without finding its target.
    NotFound(u64),
    /// A registry entry that should have been completed was not.
    NotCompleted(u64),
    /// A completion code was decoded against a descriptor of another kind.
    KindMismatch,
}

/// Errors surfaced by the ring engine.
#[derive(Debug, Clone, Copy, PartialEq, Eq, Structural)]
pub enum Error {
    /// Ring construction was rejected by the OS; carries the OS error code and
    /// the requested queue depth.
    InitError(i32, usize),
    /// No submission slot was free even after an implicit flush.
    GetSqeError,
    /// The kernel rejected a flush for a reason other than transient busy;
    /// carries the OS error code.
    SubmitError(i32),
    /// Blocking for a completion failed at the OS level; carries the OS error
    /// code.
    WaitCqeError(i32),
    /// An invariant the engine relies on did not hold.
    InternalError(InternalReason),
}

} // verus!
