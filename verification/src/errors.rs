//! The structured error a pass aborts with.

use vstd::prelude::*;

verus! {

/// Why a pass aborted.  Every kind is fatal: the engine never recovers from
/// any of them, it only recovers from `Retry` outcomes, which stay internal.
#[derive(Clone, Copy, Debug, PartialEq, Eq, Structural)]
pub enum ErrorKind {
    /// The filesystem could not supply a modification timestamp for a path.
    MetadataUnavailable,
    /// An open or stage function returned `Fail`.
    StageFailed,
    /// A bounded retry budget ran out while a step kept returning `Retry`.
    RetriesExhausted,
    /// The terminal function signalled an error of its own.
    TerminalError,
}

/// The single error value that leaves a pass: a kind to branch on plus a
/// free-text detail (the path for `MetadataUnavailable`, the reason given by
/// the failing function, or a fixed message for `RetriesExhausted`).
#[derive(Debug)]
pub struct WatchError {
    pub kind: ErrorKind,
    pub detail: String,
}

impl WatchError {
    pub fn new(kind: ErrorKind, detail: String) -> (r: Self)
        ensures
            r.kind == kind,
            r.detail == detail,
    {
        WatchError { kind, detail }
    }
}

} // verus!
