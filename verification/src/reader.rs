//! The range reader: a logical cursor over a remote object, and the
//! translation of reads and seeks into bounded, inclusive byte-range
//! requests.
//!
//! The reader holds no connection of its own. The embedding program
//! performs the remote calls; this type decides them and accounts for
//! their outcomes: [`S3Reader::plan_read`] and
//! [`S3Reader::plan_read_to_end`] say which single range a read must
//! fetch, [`S3Reader::record_header`] takes in the result of a metadata
//! probe, and [`S3Reader::advance`] moves the cursor by the bytes that
//! actually arrived.

use vstd::prelude::*;

use crate::errors::S3ReaderError;
use crate::metadata::Metadata;
use crate::seek::{s3reader_seek, seek_allowed, seek_target, SeekFrom};
use crate::uri::S3ObjectUri;

verus! {

/// Holds when an inclusive range request `from..=to` is acceptable for an
/// object of length `len`: the range must not be reversed and must start
/// at or before the end of the object.
pub open spec fn range_valid(len: u64, from: u64, to: u64) -> bool {
    from <= to && from <= len
}

/// A reader with a logical cursor over one remote object.
///
/// The cursor starts at zero and never exceeds the object's length once
/// that length is known; the length is fixed for the life of the reader
/// by the first recorded metadata probe.
pub struct S3Reader {
    uri: S3ObjectUri,
    pos: u64,
    header: Option<Metadata>,
}

impl S3Reader {
    /// The identity of the object the reader is aimed at.
    pub closed spec fn spec_uri(&self) -> S3ObjectUri {
        self.uri
    }

    /// The logical cursor, in bytes from the start of the object.
    pub closed spec fn spec_pos(&self) -> u64 {
        self.pos
    }

    /// Whether a metadata probe result has been recorded.
    pub closed spec fn length_known(&self) -> bool {
        self.header is Some
    }

    /// The recorded metadata, if any.
    pub closed spec fn spec_header(&self) -> Option<Metadata> {
        self.header
    }

    /// The object's length as the recorded metadata states it.
    pub closed spec fn spec_len(&self) -> u64
        recommends
            self.length_known(),
    {
        self.header->0.spec_len()
    }

    /// The reader's invariant: the cursor stands at zero until a length
    /// is known and never exceeds the length afterwards.
    pub open spec fn wf(&self) -> bool {
        &&& self.length_known() ==> self.spec_pos() <= self.spec_len()
        &&& !self.length_known() ==> self.spec_pos() == 0
    }

    /// Builds a reader over `uri` with the cursor at zero and no length
    /// recorded. Performs no remote work.
    pub fn new(uri: S3ObjectUri) -> (r: S3Reader)
        ensures
            r.wf(),
            r.spec_uri() == uri,
            r.spec_pos() == 0,
            !r.length_known(),
    {
        S3Reader { uri, pos: 0, header: None }
    }

    /// Parses `uri` and builds a reader over the parsed identity; the
    /// errors are those of [`S3ObjectUri::new`]. Performs no remote work.
    pub fn from_uri(uri: &str) -> (r: Result<S3Reader, S3ReaderError>)
        ensures
            r matches Ok(rd) ==> {
                &&& rd.wf()
                &&& rd.spec_pos() == 0
                &&& !rd.length_known()
                &&& rd.spec_uri().spec_bucket() == crate::uri::parsed_bucket(uri@)
                &&& rd.spec_uri().spec_key() == crate::uri::parsed_key(uri@)
            },
            r is Ok <==> crate::uri::has_scheme_prefix(uri@) && crate::uri::has_key_delimiter(
                uri@,
            ),
            !crate::uri::has_scheme_prefix(uri@) ==> r == Err::<S3Reader, S3ReaderError>(
                S3ReaderError::MissingS3Protocol,
            ),
            crate::uri::has_scheme_prefix(uri@) && !crate::uri::has_key_delimiter(uri@) ==> r
                == Err::<S3Reader, S3ReaderError>(S3ReaderError::MissingObjectUri),
    {
        match S3ObjectUri::new(uri) {
            Ok(parsed) => Ok(S3Reader::new(parsed)),
            Err(e) => Err(e),
        }
    }

    /// The identity of the object the reader is aimed at.
    pub fn uri(&self) -> (r: &S3ObjectUri)
        ensures
            r == self.spec_uri(),
    {
        &self.uri
    }

    /// The current cursor position.
    pub fn pos(&self) -> (r: u64)
        ensures
            r == self.spec_pos(),
    {
        self.pos
    }

    /// Whether the object's length is already known, so that reads and
    /// seeks can proceed without a metadata probe.
    pub fn has_length(&self) -> (r: bool)
        ensures
            r == self.length_known(),
    {
        self.header.is_some()
    }

    /// The object's `content_length`, as recorded from the metadata
    /// probe.
    pub fn len(&self) -> (r: u64)
        requires
            self.length_known(),
        ensures
            r == self.spec_len(),
    {
        match &self.header {
            Some(m) => m.len(),
            None => 0,
        }
    }

    /// The recorded metadata, if any.
    pub fn header(&self) -> (r: &Option<Metadata>)
        ensures
            r == self.spec_header(),
    {
        &self.header
    }

    /// Records the outcome of a successful metadata probe. The object is
    /// taken not to change for the life of the reader, so only the first
    /// probe's result may be recorded.
    pub fn record_header(&mut self, header: Metadata)
        requires
            old(self).wf(),
            !old(self).length_known(),
        ensures
            final(self).wf(),
            final(self).length_known(),
            final(self).spec_header() == Some(header),
            final(self).spec_len() == header.spec_len(),
            final(self).spec_pos() == old(self).spec_pos(),
            final(self).spec_uri() == old(self).spec_uri(),
    {
        self.header = Some(header);
    }

    /// Moves the cursor as [`s3reader_seek`] directs and returns the new
    /// position; on a refused seek the cursor stands still and the error
    /// is handed through.
    pub fn seek(&mut self, from: SeekFrom) -> (r: Result<u64, S3ReaderError>)
        requires
            old(self).wf(),
            old(self).length_known(),
        ensures
            final(self).wf(),
            final(self).length_known(),
            final(self).spec_header() == old(self).spec_header(),
            final(self).spec_uri() == old(self).spec_uri(),
            seek_allowed(old(self).spec_len(), old(self).spec_pos(), from) ==> (r matches Ok(p)
                && p == seek_target(old(self).spec_len(), old(self).spec_pos(), from)
                && final(self).spec_pos() == p),
            !seek_allowed(old(self).spec_len(), old(self).spec_pos(), from) ==> r == Err::<
                u64,
                S3ReaderError,
            >(S3ReaderError::NegativePosition) && final(self).spec_pos() == old(self).spec_pos(),
    {
        let len = self.len();
        match s3reader_seek(len, self.pos, from) {
            Ok(p) => {
                self.pos = p;
                Ok(p)
            },
            Err(e) => Err(e),
        }
    }

    /// Validates the inclusive byte range of a fetch request against the
    /// recorded length: succeeds exactly when the range is well formed,
    /// and otherwise fails with `InvalidRange(from, to)`.
    pub fn check_range(&self, from: u64, to: u64) -> (r: Result<(), S3ReaderError>)
        requires
            self.length_known(),
        ensures
            range_valid(self.spec_len(), from, to) <==> r is Ok,
            !range_valid(self.spec_len(), from, to) ==> r == Err::<(), S3ReaderError>(
                S3ReaderError::InvalidRange(from, to),
            ),
    {
        if to < from || from > self.len() {
            Err(S3ReaderError::InvalidRange(from, to))
        } else {
            Ok(())
        }
    }

    /// The single fetch that a read into a buffer of `buf_len` bytes must
    /// issue: `None` when the cursor is at or past the end of the object
    /// (or the buffer empty), in which case the read is zero bytes and no
    /// remote call is made; otherwise the inclusive range that starts at
    /// the cursor and covers the remainder of the object, but never more
    /// than `buf_len` bytes. One logical read issues at most this one
    /// call, however large the buffer.
    pub fn plan_read(&self, buf_len: usize) -> (r: Option<(u64, u64)>)
        requires
            self.wf(),
            self.length_known(),
        ensures
            r is None <==> (self.spec_pos() >= self.spec_len() || buf_len == 0),
            r matches Some(rg) ==> {
                &&& rg.0 == self.spec_pos()
                &&& rg.0 <= rg.1 < self.spec_len()
                &&& rg.1 - rg.0 + 1 == vstd::math::min(
                    buf_len as int,
                    self.spec_len() - self.spec_pos(),
                )
                &&& range_valid(self.spec_len(), rg.0, rg.1)
            },
    {
        let len = self.len();
        if self.pos >= len || buf_len == 0 {
            return None;
        }
        let remaining = len - self.pos;
        let want = buf_len as u64;
        let count = if want <= remaining {
            want
        } else {
            remaining
        };
        Some((self.pos, self.pos + count - 1))
    }

    /// The single fetch that a read-to-end must issue: the whole
    /// remainder `[cursor, length - 1]` of the object, or `None` when the
    /// cursor already stands at the end.
    pub fn plan_read_to_end(&self) -> (r: Option<(u64, u64)>)
        requires
            self.wf(),
            self.length_known(),
        ensures
            r is None <==> self.spec_pos() >= self.spec_len(),
            r matches Some(rg) ==> {
                &&& rg.0 == self.spec_pos()
                &&& rg.1 == self.spec_len() - 1
                &&& range_valid(self.spec_len(), rg.0, rg.1)
            },
    {
        let len = self.len();
        if self.pos >= len {
            return None;
        }
        Some((self.pos, len - 1))
    }

    /// Advances the cursor by the `count` bytes that a fetch actually
    /// returned. A remote response may carry fewer bytes than the
    /// requested range, so the cursor moves by what arrived, never by
    /// what was asked for.
    pub fn advance(&mut self, count: u64)
        requires
            old(self).wf(),
            old(self).length_known(),
            old(self).spec_pos() + count <= old(self).spec_len(),
        ensures
            final(self).wf(),
            final(self).length_known(),
            final(self).spec_pos() == old(self).spec_pos() + count,
            final(self).spec_header() == old(self).spec_header(),
            final(self).spec_uri() == old(self).spec_uri(),
    {
        self.pos = self.pos + count;
    }
}

/// Relies on std's `String::push`: it appends the given character to the
/// end of the string.
#[verifier::external_body]
fn push_char(s: &mut String, c: char)
    ensures
        final(s)@ == old(s)@.push(c),
{
    s.push(c);
}

/// Transcodes fetched bytes into text the way a read-to-string hands them
/// out: byte for byte, each byte becoming the character with the same
/// code point. No decoding beyond that is promised.
pub fn bytes_to_string(bytes: &Vec<u8>) -> (r: String)
    ensures
        r@.len() == bytes@.len(),
        forall|i: int| 0 <= i < bytes@.len() ==> r@[i] == bytes@[i] as char,
{
    let mut out = String::new();
    let mut i: usize = 0;
    while i < bytes.len()
        invariant
            i <= bytes@.len(),
            out@.len() == i,
            forall|j: int| 0 <= j < i ==> out@[j] == bytes@[j] as char,
        decreases bytes@.len() - i,
    {
        push_char(&mut out, bytes[i] as char);
        i = i + 1;
    }
    out
}

} // verus!
