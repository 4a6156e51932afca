//! Filesystem-flavoured metadata over a remote object.
//!
//! The remote store only holds flat, read-only objects, so the
//! directory/symlink/permission answers are compatibility shims with
//! fixed values; the object's length and last-modified time are the only
//! facts with real backing.

use vstd::prelude::*;

verus! {

/// What kind of entry the object presents itself as.
///
/// Remote objects are always plain files; the other answers exist for
/// interface compatibility and are constant.
#[derive(Debug, Clone, Copy)]
pub struct FileType {}

impl FileType {
    /// A remote object is never a directory.
    pub fn is_dir(&self) -> (r: bool)
        ensures
            !r,
    {
        false
    }

    /// A remote object is always a plain file.
    pub fn is_file(&self) -> (r: bool)
        ensures
            r,
    {
        true
    }

    /// A remote object is never a symbolic link.
    pub fn is_symlink(&self) -> (r: bool)
        ensures
            !r,
    {
        false
    }
}

/// Access rights of the object, as this read-only adapter sees them.
#[derive(Debug, Clone, Copy)]
pub struct Permissions {}

impl Permissions {
    /// The adapter never writes, so every object is reported read-only.
    pub fn readonly(&self) -> (r: bool)
        ensures
            r,
    {
        true
    }
}

/// The outcome of a metadata probe: the object's length in bytes and,
/// when the remote store reported one, its last-modified time in seconds
/// since the Unix epoch.
#[derive(Debug, Clone, Copy, PartialEq, Eq)]
pub struct Metadata {
    content_length: u64,
    last_modified: Option<i64>,
}

impl Metadata {
    /// The object's length in bytes.
    pub closed spec fn spec_len(&self) -> u64 {
        self.content_length
    }

    /// The last-modified time, when the store reported one.
    pub closed spec fn spec_modified(&self) -> Option<i64> {
        self.last_modified
    }

    /// Builds the record that a successful metadata probe hands back.
    pub fn new(content_length: u64, last_modified: Option<i64>) -> (r: Metadata)
        ensures
            r.spec_len() == content_length,
            r.spec_modified() == last_modified,
    {
        Metadata { content_length, last_modified }
    }

    /// The kind of entry the object is; see [`FileType`].
    pub fn file_type(&self) -> FileType {
        FileType {  }
    }

    /// A remote object is never a directory.
    pub fn is_dir(&self) -> (r: bool)
        ensures
            !r,
    {
        self.file_type().is_dir()
    }

    /// A remote object is always a plain file.
    pub fn is_file(&self) -> (r: bool)
        ensures
            r,
    {
        self.file_type().is_file()
    }

    /// A remote object is never a symbolic link.
    pub fn is_symlink(&self) -> (r: bool)
        ensures
            !r,
    {
        self.file_type().is_symlink()
    }

    /// The object's length in bytes.
    pub fn len(&self) -> (r: u64)
        ensures
            r == self.spec_len(),
    {
        self.content_length
    }

    /// The object's access rights; see [`Permissions`].
    pub fn permissions(&self) -> Permissions {
        Permissions {  }
    }

    /// The last-modified time in seconds since the Unix epoch, when the
    /// store reported one.
    pub fn modified(&self) -> (r: Option<i64>)
        ensures
            r == self.spec_modified(),
    {
        self.last_modified
    }
}

} // verus!
