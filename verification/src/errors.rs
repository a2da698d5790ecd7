//! The error taxonomy of the transfer engine.
//!
//! Every failure aborts exactly the destination transfer in which it
//! occurred; nothing in the engine retries.  Each variant carries the most
//! specific datum available (a path, or the reporting backend's message) so
//! that a caller can render a diagnostic.

use vstd::prelude::*;

verus! {

/// One failure of a destination transfer, by the step that failed.
#[derive(Debug)]
pub enum TransferError {
    /// The local upload root does not exist.
    PathError(String),
    /// The transport-layer connection could not be opened.
    ConnectionError(String),
    /// The protocol handshake (or the file-transfer channel setup) failed.
    HandshakeError(String),
    /// The credential was rejected, or the session did not report an
    /// authenticated state after the attempt.
    AuthError(String),
    /// A remote directory could not be created.
    RemoteDirError(String),
    /// The local file could not be opened or read.
    LocalIOError(String),
    /// The remote file could not be created or written.
    RemoteIOError(String),
    /// The destination's unit of work terminated abnormally; the fault is
    /// recorded as text at the collection boundary rather than dropped.
    Aborted(String),
}

impl TransferError {
    /// The datum the variant was built with (a path or a backend message).
    pub fn detail(&self) -> (r: &String)
        ensures
            r@ == self.detail_spec(),
    {
        match self {
            TransferError::PathError(s) => s,
            TransferError::ConnectionError(s) => s,
            TransferError::HandshakeError(s) => s,
            TransferError::AuthError(s) => s,
            TransferError::RemoteDirError(s) => s,
            TransferError::LocalIOError(s) => s,
            TransferError::RemoteIOError(s) => s,
            TransferError::Aborted(s) => s,
        }
    }

    pub open spec fn detail_spec(&self) -> Seq<char> {
        match self {
            TransferError::PathError(s) => s@,
            TransferError::ConnectionError(s) => s@,
            TransferError::HandshakeError(s) => s@,
            TransferError::AuthError(s) => s@,
            TransferError::RemoteDirError(s) => s@,
            TransferError::LocalIOError(s) => s@,
            TransferError::RemoteIOError(s) => s@,
            TransferError::Aborted(s) => s@,
        }
    }
}

} // verus!
