//! The error taxonomy. Generation errors are per-file and non-fatal to a
//! batch; transfer errors abort a single request and are reported to the
//! remote peer as a generic rejection, so a probing peer cannot tell a
//! missing resource from an unauthorized one.

use vstd::prelude::*;

verus! {

/// Why one thumbnail could not be produced. Each carries the offending
/// source path and a description of the underlying cause.
#[derive(Debug, Clone)]
pub enum GenerationError {
    /// The source could not be decoded into a bitmap.
    DecodeFailed { path: String, cause: String },
    /// The scaled bitmap could not be encoded.
    EncodeFailed { path: String, cause: String },
    /// The decode-resize-encode worker panicked or aborted.
    WorkerPanicked { path: String, cause: String },
    /// The shard subdirectory could not be created.
    DirectoryCreateFailed { path: String, cause: String },
    /// The encoded bytes could not be written to the target.
    WriteFailed { path: String, cause: String },
    /// The external video frame extractor failed.
    ExternalToolFailed { path: String, cause: String },
    /// The whole generation sequence exceeded its time budget.
    Timeout { path: String },
}

/// Why one transfer request was aborted.
#[derive(Debug, Clone, Copy, PartialEq, Eq, Structural)]
pub enum TransferError {
    /// The requested peer has no active session.
    PeerUnavailable,
    /// The tunnel could not authenticate the counterpart.
    AuthenticationFailed,
    /// The authenticated peer named a library unknown here.
    UnknownLibrary,
    /// The request named a file this node does not have.
    ResourceNotFound,
    /// The resolved path escaped the served root or had the wrong
    /// extension; rejected before any file is opened.
    PathNotAuthorized,
    /// The framing header was not twelve bytes.
    MalformedHeader,
    /// The framing header named a block size outside the protocol's set.
    InvalidBlockSize,
    /// The request envelope did not parse.
    MalformedRequest,
    /// The requested byte range starts beyond the end of the resource.
    InvalidRange,
    /// The shared cancellation flag was observed set.
    Cancelled,
}

impl TransferError {
    /// The error as shown to the remote peer. A resource that does not
    /// exist and a path that failed authorization present identically,
    /// so a probing peer cannot use the difference to map the
    /// filesystem; every other error passes through unchanged. Local
    /// handling keeps the specific value.
    pub fn remote_presentation(&self) -> (r: TransferError)
        ensures
            r == (match *self {
                TransferError::PathNotAuthorized => TransferError::ResourceNotFound,
                other => other,
            }),
            *self is PathNotAuthorized || *self is ResourceNotFound ==> r
                == TransferError::ResourceNotFound,
    {
        match self {
            TransferError::PathNotAuthorized => TransferError::ResourceNotFound,
            other => *other,
        }
    }
}

} // verus!
