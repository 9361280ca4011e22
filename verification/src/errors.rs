//! The error taxonomy shared by every engine.

use vstd::prelude::*;

verus! {

/// Errors reported by the watcher facade and its engines.
#[derive(Clone, Debug)]
pub enum KanshiError {
    /// Reserved for downstream process-tracing tooling.
    PTraceError(String),
    /// Reserved for downstream command tooling.
    InvalidCommand(String),
    /// A kernel call or a path resolution failed; carries the message.
    FileSystemError(String),
    /// An operation was attempted after the listener was closed.
    StreamClosedError,
    /// `watch` was attempted after `start` on a backend that forbids it.
    ListenerStartedError,
    /// A bad option value was supplied.
    InvalidParameter(String),
}

impl KanshiError {
    /// A short, fixed description of the error variant.
    pub fn describe(&self) -> (r: &'static str)
        ensures
            self is PTraceError ==> r@ == "unable to attach ptrace to subprocess thread"@,
            self is InvalidCommand ==> r@ == "invalid command supplied"@,
            self is FileSystemError ==> r@ == "file system error"@,
            self is StreamClosedError ==> r@ == "the file system listener was closed"@,
            self is ListenerStartedError ==> r@ == "listener has already started"@,
            self is InvalidParameter ==> r@ == "invalid parameter supplied"@,
    {
        match self {
            KanshiError::PTraceError(_) => "unable to attach ptrace to subprocess thread",
            KanshiError::InvalidCommand(_) => "invalid command supplied",
            KanshiError::FileSystemError(_) => "file system error",
            KanshiError::StreamClosedError => "the file system listener was closed",
            KanshiError::ListenerStartedError => "listener has already started",
            KanshiError::InvalidParameter(_) => "invalid parameter supplied",
        }
    }
}

/// The error taxonomy of the engine-facing layer; a narrower, older surface
/// that the tracer implementations report through.
#[derive(Clone, Debug)]
pub enum FileSystemTracerError {
    /// Reserved for downstream process-tracing tooling.
    PTraceError(String),
    /// Reserved for downstream command tooling.
    InvalidCommand(String),
    /// A kernel call or a path resolution failed; carries the message.
    FileSystemError(String),
    /// An operation was attempted after the listener was closed.
    StreamClosedError,
    /// `watch` was attempted after `start` on a backend that forbids it.
    TracerStartedError,
}

impl FileSystemTracerError {
    /// Lift an engine-level error into the facade's taxonomy.
    pub fn into_kanshi_error(self) -> (r: KanshiError)
        ensures
            self matches FileSystemTracerError::PTraceError(m) ==> (r matches
                KanshiError::PTraceError(n) && n@ == m@),
            self matches FileSystemTracerError::InvalidCommand(m) ==> (r matches
                KanshiError::InvalidCommand(n) && n@ == m@),
            self matches FileSystemTracerError::FileSystemError(m) ==> (r matches
                KanshiError::FileSystemError(n) && n@ == m@),
            self is StreamClosedError ==> r is StreamClosedError,
            self is TracerStartedError ==> r is ListenerStartedError,
    {
        match self {
            FileSystemTracerError::PTraceError(m) => KanshiError::PTraceError(m),
            FileSystemTracerError::InvalidCommand(m) => KanshiError::InvalidCommand(m),
            FileSystemTracerError::FileSystemError(m) => KanshiError::FileSystemError(m),
            FileSystemTracerError::StreamClosedError => KanshiError::StreamClosedError,
            FileSystemTracerError::TracerStartedError => KanshiError::ListenerStartedError,
        }
    }
}

} // verus!
