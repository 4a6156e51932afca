//! The error type shared by identifier parsing and the range reader.

use vstd::prelude::*;

verus! {

/// Everything that can go wrong while parsing an object identifier or
/// driving the range reader.
///
/// Every fallible operation of the library returns one of these variants;
/// none of them aborts the process.
#[derive(Debug, Clone, PartialEq, Eq)]
pub enum S3ReaderError {
    /// The identifier does not begin with the `s3://` scheme prefix.
    MissingS3Protocol,
    /// The identifier has no `/` separating the bucket from the key.
    MissingObjectUri,
    /// A remote call failed; the payload describes the underlying cause.
    ObjectNotFetched(String),
    /// A remote response body could not be drained.
    InvalidContent,
    /// A range request `from..=to` was malformed: `to < from`, or `from`
    /// lies beyond the object's length.
    InvalidRange(u64, u64),
    /// A seek would have moved the cursor below position zero.
    NegativePosition,
}

} // verus!
