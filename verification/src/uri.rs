//! Parsing of `s3://bucket/key` object identifiers.
//!
//! An identifier is the fixed scheme prefix, a bucket name up to the first
//! `/` after the prefix, and the rest of the text as the key, taken
//! verbatim. No further validation is applied: bucket-name legality and
//! percent-encoding are deliberately not this layer's concern.

use vstd::prelude::*;

use crate::errors::S3ReaderError;

verus! {

/// Holds when `s` begins with the five characters of the `s3://` scheme
/// prefix.
pub open spec fn has_scheme_prefix(s: Seq<char>) -> bool {
    s.len() >= 5 && s.subrange(0, 5) == "s3://"@
}

/// The index of the first `/` of `s` at or after position `from`, or the
/// length of `s` when there is none.
pub open spec fn first_slash_at(s: Seq<char>, from: int) -> int
    decreases s.len() - from,
{
    if from < 0 || from >= s.len() {
        s.len() as int
    } else if s[from] == '/' {
        from
    } else {
        first_slash_at(s, from + 1)
    }
}

/// Holds when the text after the scheme prefix contains the `/` that
/// separates the bucket from the key.
pub open spec fn has_key_delimiter(s: Seq<char>) -> bool {
    s.len() >= 5 && first_slash_at(s, 5) < s.len()
}

/// The bucket part of a well-formed identifier: the characters between
/// the scheme prefix and the first `/` after it.
pub open spec fn parsed_bucket(s: Seq<char>) -> Seq<char> {
    s.subrange(5, first_slash_at(s, 5))
}

/// The key part of a well-formed identifier: everything after the first
/// `/` that follows the scheme prefix, possibly empty.
pub open spec fn parsed_key(s: Seq<char>) -> Seq<char> {
    s.subrange(first_slash_at(s, 5) + 1, s.len() as int)
}

/// The parsed identity of a remote object: its bucket and its key.
///
/// Values are only built by [`S3ObjectUri::new`] and never change
/// afterwards.
#[derive(Debug, Clone)]
pub struct S3ObjectUri {
    bucket: String,
    key: String,
}

impl S3ObjectUri {
    /// The bucket name, as a sequence of characters.
    pub closed spec fn spec_bucket(&self) -> Seq<char> {
        self.bucket@
    }

    /// The object key, as a sequence of characters.
    pub closed spec fn spec_key(&self) -> Seq<char> {
        self.key@
    }

    /// Parses an `s3://bucket/key` identifier.
    ///
    /// Fails with `MissingS3Protocol` when the text does not begin with
    /// the scheme prefix, and with `MissingObjectUri` when no `/` follows
    /// the prefix; otherwise returns the bucket and key that the text
    /// denotes.
    pub fn new(uri: &str) -> (r: Result<S3ObjectUri, S3ReaderError>)
        ensures
            !has_scheme_prefix(uri@) ==> r == Err::<S3ObjectUri, S3ReaderError>(
                S3ReaderError::MissingS3Protocol,
            ),
            has_scheme_prefix(uri@) && !has_key_delimiter(uri@) ==> r == Err::<
                S3ObjectUri,
                S3ReaderError,
            >(S3ReaderError::MissingObjectUri),
            has_scheme_prefix(uri@) && has_key_delimiter(uri@) ==> (r matches Ok(u)
                && u.spec_bucket() == parsed_bucket(uri@) && u.spec_key() == parsed_key(uri@)),
    {
        let n = uri.unicode_len();
        proof {
            reveal_strlit("s3://");
        }
        if n < 5 || uri.get_char(0) != 's' || uri.get_char(1) != '3' || uri.get_char(2) != ':'
            || uri.get_char(3) != '/' || uri.get_char(4) != '/' {
            proof {
                if uri@.len() >= 5 && uri@.subrange(0, 5) == "s3://"@ {
                    assert(uri@[0] == "s3://"@[0]);
                    assert(uri@[1] == "s3://"@[1]);
                    assert(uri@[2] == "s3://"@[2]);
                    assert(uri@[3] == "s3://"@[3]);
                    assert(uri@[4] == "s3://"@[4]);
                }
            }
            return Err(S3ReaderError::MissingS3Protocol);
        }
        proof {
            assert(uri@.subrange(0, 5) =~= "s3://"@);
        }
        let mut i: usize = 5;
        while i < n
            invariant
                5 <= i <= n,
                n == uri@.len(),
                has_scheme_prefix(uri@),
                forall|j: int| 5 <= j < i ==> uri@[j] != '/',
            decreases n - i,
        {
            if uri.get_char(i) == '/' {
                proof {
                    lemma_first_slash_found(uri@, 5, i as int);
                }
                let bucket = uri.substring_char(5, i).to_owned();
                let key = uri.substring_char(i + 1, n).to_owned();
                return Ok(S3ObjectUri { bucket, key });
            }
            i = i + 1;
        }
        proof {
            lemma_first_slash_found(uri@, 5, n as int);
        }
        Err(S3ReaderError::MissingObjectUri)
    }

    /// Returns the bucket name.
    pub fn bucket(&self) -> (r: &str)
        ensures
            r@ == self.spec_bucket(),
    {
        self.bucket.as_str()
    }

    /// Returns the object's key.
    pub fn key(&self) -> (r: &str)
        ensures
            r@ == self.spec_key(),
    {
        self.key.as_str()
    }
}

/// When no `/` stands in `[from, k)` and `k` is either the length of `s`
/// or the position of a `/`, the first slash search from `from` stops at
/// `k`.
proof fn lemma_first_slash_found(s: Seq<char>, from: int, k: int)
    requires
        0 <= from <= k <= s.len(),
        forall|j: int| from <= j < k ==> s[j] != '/',
        k == s.len() || s[k] == '/',
    ensures
        first_slash_at(s, from) == k,
    decreases k - from,
{
    if from < k {
        lemma_first_slash_found(s, from + 1, k);
    }
}

} // verus!
