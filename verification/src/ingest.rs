//! Ingestion boundary policy: which path an update takes, depending on what
//! kind of value the host handed over.
//!
//! A value that converts to a byte sequence is copied into memory the core
//! owns exclusively, so any host-wide execution lock may be released while
//! the mixing runs. A read-only memory view is processed in place, on loan
//! from the host; the lock must then be held for the whole call, since it is
//! the only guarantee that the host will not mutate, resize, or free the
//! memory underneath the read. Anything else is rejected, with the
//! accumulator untouched.
use vstd::prelude::*;

use vstd::string::StringExecFns;

verus! {

/// What the host reports of the value supplied to an update call.
#[derive(Clone, Copy, Debug, PartialEq, Eq, Structural)]
pub enum SuppliedKind {
    /// Convertible to a contiguous byte sequence.
    ByteSequence,
    /// A read-only memory view without extraction support.
    ReadOnlyView,
    /// Anything else.
    Other,
}

/// The ingestion path an update call takes.
#[derive(Clone, Copy, Debug, PartialEq, Eq, Structural)]
pub enum IngestPath {
    /// Copy the bytes into exclusively owned memory, then mix.
    OwnedCopy,
    /// Read the caller's memory in place, without copying.
    BorrowedView,
    /// Refuse the value.
    Reject,
}

/// The resolved plan for one update call.
#[derive(Clone, Copy, Debug, PartialEq, Eq, Structural)]
pub struct IngestDecision {
    /// The path taken.
    pub path: IngestPath,
    /// Whether a host-wide execution lock may be released during mixing.
    /// Only the owned-copy path may release it.
    pub release_exec_lock: bool,
}

/// Resolve the ingestion path for a supplied value: byte sequences take the
/// owned-copy path and may release the execution lock; read-only views take
/// the borrowed-view path and must hold it; everything else is rejected.
pub fn decide_ingest(kind: SuppliedKind) -> (d: IngestDecision)
    ensures
        kind is ByteSequence ==> d.path is OwnedCopy,
        kind is ReadOnlyView ==> d.path is BorrowedView,
        kind is Other ==> d.path is Reject,
        d.release_exec_lock <==> kind is ByteSequence,
{
    match kind {
        SuppliedKind::ByteSequence => IngestDecision {
            path: IngestPath::OwnedCopy,
            release_exec_lock: true,
        },
        SuppliedKind::ReadOnlyView => IngestDecision {
            path: IngestPath::BorrowedView,
            release_exec_lock: false,
        },
        SuppliedKind::Other => IngestDecision { path: IngestPath::Reject, release_exec_lock: false },
    }
}

/// Why an update call was refused.
#[derive(Clone, Copy, Debug, PartialEq, Eq, Structural)]
pub enum UpdateError {
    /// The supplied value is neither a byte sequence nor a read-only view.
    UnsupportedType,
}

impl UpdateError {
    /// The diagnostic text of this error.
    pub fn message(&self) -> (r: String)
        ensures
            r@ == "Expected a bytes-like object."@,
    {
        String::from_str("Expected a bytes-like object.")
    }
}

} // verus!
