//! The messages that cross the trust boundary between the embedded page and
//! the host process. Each is a plain value, copied across the bridge; none is
//! persisted.

use vstd::prelude::*;

verus! {

/// Asks the host to show a desktop notification; `title` is the document
/// title that triggered it and becomes the notification body.
#[derive(Clone, Debug, PartialEq, Eq)]
pub struct NotificationRequest {
    pub title: String,
}

/// Asks the host to hand an address to the OS default external handler.
#[derive(Clone, Debug, PartialEq, Eq)]
pub struct LinkOpenRequest {
    pub target: String,
}

/// Asks the host to save a byte payload under a suggested file name. The
/// bytes were fetched on the page side because the host cannot fetch an
/// in-memory-object address itself; the transfer is byte-for-byte lossless.
#[derive(Clone, Debug, PartialEq, Eq)]
pub struct BlobSaveRequest {
    pub file_name: String,
    pub file_bytes: Vec<u8>,
}

} // verus!
