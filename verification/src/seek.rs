//! Pure seek arithmetic: given an object length, the current cursor and a
//! requested movement, compute the new cursor.
//!
//! The arithmetic is a function of `(length, cursor, origin, offset)` alone.
//! Seeks that aim past the end of the object clamp to the end; seeks that
//! would land below position zero are rejected.

use vstd::prelude::*;

use crate::errors::S3ReaderError;

verus! {

/// Where a seek is anchored and how far it moves.
///
/// `Start` positions are absolute and unsigned; `Current` and `End` are
/// signed displacements from the cursor and from the end of the object.
#[derive(Debug, Clone, Copy, PartialEq, Eq, Structural)]
pub enum SeekFrom {
    Start(u64),
    Current(i64),
    End(i64),
}

/// Holds when the seek does not aim below position zero: absolute seeks
/// and forward displacements always do; a backward displacement is allowed
/// only while its magnitude stays within its anchor (the cursor for
/// `Current`, the object length for `End`).
pub open spec fn seek_allowed(len: u64, cursor: u64, from: SeekFrom) -> bool {
    match from {
        SeekFrom::Start(_) => true,
        SeekFrom::Current(x) => x >= 0 || cursor + x >= 0,
        SeekFrom::End(x) => x >= 0 || len + x >= 0,
    }
}

/// The cursor that a permitted seek lands on: the anchor plus the
/// displacement, clamped to the object length from above.
pub open spec fn seek_target(len: u64, cursor: u64, from: SeekFrom) -> int
    recommends
        seek_allowed(len, cursor, from),
{
    match from {
        SeekFrom::Start(x) => if x <= len { x as int } else { len as int },
        SeekFrom::Current(x) => if x >= 0 {
            if cursor + x <= len { cursor + x } else { len as int }
        } else {
            cursor + x
        },
        SeekFrom::End(x) => if x <= 0 { len + x } else { len as int },
    }
}

/// Computes the new cursor for a seek over an object of length `len` with
/// the cursor at `cursor`.
///
/// Clamping seeks (`Start`, forward `Current`, forward `End`) always
/// succeed and never pass the end of the object; backward seeks fail with
/// `NegativePosition` exactly when their magnitude exceeds the anchor's
/// headroom. All arithmetic is explicit about overflow: a forward
/// displacement whose sum does not fit still clamps to `len`.
pub fn s3reader_seek(len: u64, cursor: u64, from: SeekFrom) -> (r: Result<u64, S3ReaderError>)
    ensures
        seek_allowed(len, cursor, from) ==> (r matches Ok(p) && p == seek_target(
            len,
            cursor,
            from,
        )),
        !seek_allowed(len, cursor, from) ==> r == Err::<u64, S3ReaderError>(
            S3ReaderError::NegativePosition,
        ),
        cursor <= len ==> (r matches Ok(p) ==> p <= len),
{
    match from {
        SeekFrom::Start(x) => if x <= len {
            Ok(x)
        } else {
            Ok(len)
        },
        SeekFrom::Current(x) => {
            if x >= 0 {
                let step: u64 = x as u64;
                if step > u64::MAX - cursor {
                    // cursor + step exceeds every possible length
                    Ok(len)
                } else if cursor + step <= len {
                    Ok(cursor + step)
                } else {
                    Ok(len)
                }
            } else {
                let back: u64 = negate_i64(x);
                if back > cursor {
                    Err(S3ReaderError::NegativePosition)
                } else {
                    Ok(cursor - back)
                }
            }
        },
        SeekFrom::End(x) => {
            if x >= 0 {
                Ok(len)
            } else {
                let back: u64 = negate_i64(x);
                if back > len {
                    Err(S3ReaderError::NegativePosition)
                } else {
                    Ok(len - back)
                }
            }
        },
    }
}

/// The magnitude of a negative displacement, computed without overflowing
/// the signed type.
fn negate_i64(x: i64) -> (r: u64)
    requires
        x < 0,
    ensures
        r == -(x as int),
{
    if x == i64::MIN {
        9223372036854775808u64
    } else {
        (-x) as u64
    }
}

/// Seek results stay within the object: whenever the cursor is inside the
/// object, a permitted seek lands between zero and the object length;
/// absolute and forward seeks are always permitted (they clamp instead of
/// erring); a backward seek is refused exactly when its magnitude exceeds
/// the headroom of its anchor.
pub proof fn lemma_seek_bounds(len: u64, cursor: u64, from: SeekFrom)
    ensures
        cursor <= len && seek_allowed(len, cursor, from) ==> 0 <= seek_target(len, cursor, from)
            <= len,
        from matches SeekFrom::Start(_) ==> seek_allowed(len, cursor, from),
        from matches SeekFrom::Current(x) && x >= 0 ==> seek_allowed(len, cursor, from),
        from matches SeekFrom::End(x) && x >= 0 ==> seek_allowed(len, cursor, from),
        from matches SeekFrom::Current(x) ==> (x < 0 ==> (seek_allowed(len, cursor, from) <==> -(
        x as int) <= cursor)),
        from matches SeekFrom::End(x) ==> (x < 0 ==> (seek_allowed(len, cursor, from) <==> -(
        x as int) <= len)),
{
}

/// Seeking to an absolute position is idempotent: repeating `Start(x)`
/// from wherever the first seek landed yields the same cursor again.
pub proof fn lemma_seek_start_idempotent(len: u64, cursor: u64, x: u64)
    ensures
        seek_allowed(len, cursor, SeekFrom::Start(x)),
        seek_target(
            len,
            seek_target(len, cursor, SeekFrom::Start(x)) as u64,
            SeekFrom::Start(x),
        ) == seek_target(len, cursor, SeekFrom::Start(x)),
{
}

/// `Current(0)` is a no-op: with the cursor inside the object it is
/// permitted and returns the cursor unchanged.
pub proof fn lemma_seek_current_zero_noop(len: u64, cursor: u64)
    requires
        cursor <= len,
    ensures
        seek_allowed(len, cursor, SeekFrom::Current(0)),
        seek_target(len, cursor, SeekFrom::Current(0)) == cursor,
{
}

/// Rewinding to the start and then seeking `End(0)` lands on the object
/// length, from any starting cursor.
pub proof fn lemma_seek_round_trip_to_end(len: u64, cursor: u64)
    ensures
        seek_allowed(len, cursor, SeekFrom::Start(0)),
        seek_allowed(len, seek_target(len, cursor, SeekFrom::Start(0)) as u64, SeekFrom::End(0)),
        seek_target(
            len,
            seek_target(len, cursor, SeekFrom::Start(0)) as u64,
            SeekFrom::End(0),
        ) == len,
{
}

/// Seeking `End(0)` and then stepping back by the whole length lands on
/// zero. `back` is the displacement `-len`, so the law speaks only of
/// lengths whose negation the signed offset can carry.
pub proof fn lemma_seek_round_trip_to_start(len: u64, cursor: u64, back: i64)
    requires
        back == -(len as int),
    ensures
        seek_allowed(len, cursor, SeekFrom::End(0)),
        seek_allowed(len, seek_target(len, cursor, SeekFrom::End(0)) as u64, SeekFrom::Current(back)),
        seek_target(
            len,
            seek_target(len, cursor, SeekFrom::End(0)) as u64,
            SeekFrom::Current(back),
        ) == 0,
{
}

} // verus!
