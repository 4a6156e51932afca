//! A cursor-based, randomly seekable read adapter over a remote,
//! range-addressable object held in a bucket under a key.
//!
//! The library owns the logic of the adapter: parsing a `s3://bucket/key`
//! identifier, the seek arithmetic, and the translation of logical reads
//! into bounded inclusive byte-range requests. The remote calls themselves
//! (metadata probe and range fetch) are performed by the embedding program,
//! which feeds their outcomes back into the reader state.

use vstd::prelude::*;

mod errors;
mod metadata;
mod reader;
mod seek;
mod uri;

pub use errors::S3ReaderError;
pub use metadata::FileType;
pub use metadata::Metadata;
pub use metadata::Permissions;
pub use reader::bytes_to_string;
pub use reader::S3Reader;
pub use seek::s3reader_seek;
pub use seek::SeekFrom;
pub use uri::S3ObjectUri;

verus! {

} // verus!
