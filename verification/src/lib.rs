//! Content-addressed thumbnail cache and peer-to-peer file transfer core.
//!
//! The library covers: derivation of sharded storage keys from content
//! hashes, the thumbnail generation policy (cache skip, regeneration,
//! media-category dispatch, dimension scaling), a rate-limiting policy for
//! ad-hoc generation, the wire framing of the transfer protocol (block
//! sizes, length header, request envelope), the chunked transfer state
//! machine with progress and cooperative cancellation, and the path
//! authorization guard that rejects directory-traversal attempts.
//!
//! All filesystem and network effects live outside this crate; callers
//! drive the state machines defined here and perform the I/O themselves.

pub mod authorize;
pub mod error;
pub mod extension;
pub mod framing;
pub mod generator;
pub mod image_ops;
pub mod paths;
pub mod protocol;
pub mod scale;
pub mod throttle;
pub mod transfer;
pub mod thumb_key;
