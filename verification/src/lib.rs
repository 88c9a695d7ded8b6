//! Asset synchronization core for a desktop launcher.
//!
//! The library holds the verified logic of the launcher's download and
//! installation pipeline: deciding which expected files are missing under a
//! root directory, scheduling a batch of downloads under a fixed concurrency
//! ceiling, accounting for streamed download progress, checking content
//! digests, and planning archive extraction so that no entry escapes the
//! destination directory.  The surrounding binary performs the actual
//! network and filesystem work and feeds plain values in and out.

use vstd::prelude::*;

pub mod archive;
pub mod digest;
pub mod hex;
pub mod javaver;
pub mod manifest;
pub mod metadata;
pub mod pool;
pub mod progress;

verus! {

/// Classified failure of a synchronization operation.
///
/// `NotFound` marks a missing file or directory; `NetworkError` a failed
/// request or a non-success status; `IoError` a read or write failure;
/// `IntegrityMismatch` a digest comparison that did not match;
/// `UnsupportedFormat` an archive whose container format is not recognized;
/// `InvalidEntry` an archive entry whose path is malformed or would escape
/// the destination directory.
#[derive(Clone, Copy, Debug, PartialEq, Eq, Structural)]
pub enum SyncError {
    NotFound,
    NetworkError,
    IoError,
    IntegrityMismatch,
    UnsupportedFormat,
    InvalidEntry,
}

/// Converts a byte count into whole mebibytes, rounding down.
pub fn bytes_to_mib(bytes: u64) -> (r: u64)
    ensures
        r == bytes / 1024 / 1024,
{
    bytes / 1024 / 1024
}

} // verus!
