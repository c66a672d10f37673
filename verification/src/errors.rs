//! The single error representation that crosses back to the caller.
//!
//! Every failure class of the bridge is mapped to exactly one kind before it
//! leaves the bridge; no foreign error representation crosses the boundary,
//! only its textual message.

use vstd::prelude::*;

verus! {

/// The failure classes of the bridge.
#[derive(Clone, Copy, Debug, PartialEq, Eq, Structural)]
pub enum ErrorKind {
    /// Bringing the foreign execution environment online failed; fatal for
    /// the rest of the process's life.
    RuntimeInitFailed,
    /// The analysis module could not be imported.
    ModuleLoadFailed,
    /// The module was imported but the entry point is not defined on it.
    EntryPointMissing,
    /// The entry point raised, or its return value could not be rendered as
    /// text.
    ForeignExecutionFailed,
    /// The textual result did not parse, or required fields are absent or of
    /// the wrong shape.
    MalformedResult,
}

/// An error of the bridge: a kind plus a human-readable message.
#[derive(Debug)]
pub struct BridgeError {
    pub kind: ErrorKind,
    pub message: String,
}

impl BridgeError {
    /// Builds an error of the given kind carrying the given message.
    pub fn new(kind: ErrorKind, message: String) -> (r: BridgeError)
        ensures
            r.kind == kind,
            r.message == message,
    {
        BridgeError { kind, message }
    }
}

} // verus!
