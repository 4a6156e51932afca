use s3reader::{s3reader_seek, S3ReaderError, SeekFrom};

#[test]
fn test_absolute_position() {
    assert_eq!(s3reader_seek(100, 1, SeekFrom::Start(30)).unwrap(), 30);
    assert_eq!(s3reader_seek(100, 1, SeekFrom::Start(0)).unwrap(), 0);
    assert_eq!(s3reader_seek(100, 1, SeekFrom::Start(100)).unwrap(), 100);
    assert_eq!(s3reader_seek(100, 1, SeekFrom::Start(120)).unwrap(), 100);
}

#[test]
fn test_relative_position() {
    assert_eq!(s3reader_seek(100, 1, SeekFrom::Current(30)).unwrap(), 31);
    assert_eq!(s3reader_seek(100, 1, SeekFrom::Current(99)).unwrap(), 100);
    assert_eq!(s3reader_seek(100, 1, SeekFrom::Current(0)).unwrap(), 1);
    assert_eq!(s3reader_seek(100, 1, SeekFrom::Current(-1)).unwrap(), 0);
    assert_eq!(s3reader_seek(100, 0, SeekFrom::Current(0)).unwrap(), 0);
    assert_eq!(s3reader_seek(100, 0, SeekFrom::Current(1)).unwrap(), 1);
    assert_eq!(s3reader_seek(100, 1, SeekFrom::Current(100)).unwrap(), 100);
    assert!(s3reader_seek(100, 1, SeekFrom::Current(-2)).is_err());
}

#[test]
fn test_seek_from_end() {
    assert_eq!(s3reader_seek(100, 1, SeekFrom::End(1)).unwrap(), 100);
    assert_eq!(s3reader_seek(100, 1, SeekFrom::End(0)).unwrap(), 100);
    assert_eq!(s3reader_seek(100, 1, SeekFrom::End(-100)).unwrap(), 0);
    assert_eq!(s3reader_seek(100, 1, SeekFrom::End(-50)).unwrap(), 50);
    assert!(s3reader_seek(100, 1, SeekFrom::End(-101)).is_err());
}

#[test]
fn backward_seek_errors_are_negative_position() {
    assert!(matches!(
        s3reader_seek(100, 1, SeekFrom::Current(-2)),
        Err(S3ReaderError::NegativePosition)
    ));
    assert!(matches!(
        s3reader_seek(100, 1, SeekFrom::End(-101)),
        Err(S3ReaderError::NegativePosition)
    ));
}

#[test]
fn forward_seeks_clamp_even_on_huge_offsets() {
    assert_eq!(s3reader_seek(100, 50, SeekFrom::Current(i64::MAX)).unwrap(), 100);
    assert_eq!(s3reader_seek(100, u64::MAX, SeekFrom::Current(1)).unwrap(), 100);
    assert_eq!(s3reader_seek(100, 0, SeekFrom::End(i64::MAX)).unwrap(), 100);
}

#[test]
fn backward_seek_handles_extreme_magnitudes() {
    // the largest representable backward displacement is 2^63
    let len = u64::MAX;
    assert_eq!(
        s3reader_seek(len, 0, SeekFrom::End(i64::MIN)).unwrap(),
        len - 9223372036854775808
    );
    assert!(s3reader_seek(100, 100, SeekFrom::Current(i64::MIN)).is_err());
}

#[test]
fn seek_to_start_is_idempotent() {
    let first = s3reader_seek(100, 37, SeekFrom::Start(64)).unwrap();
    let second = s3reader_seek(100, first, SeekFrom::Start(64)).unwrap();
    assert_eq!(first, 64);
    assert_eq!(second, first);

    let clamped = s3reader_seek(100, 3, SeekFrom::Start(250)).unwrap();
    let again = s3reader_seek(100, clamped, SeekFrom::Start(250)).unwrap();
    assert_eq!(clamped, 100);
    assert_eq!(again, clamped);
}

#[test]
fn seek_current_zero_is_a_noop() {
    for cursor in [0u64, 1, 57, 99, 100] {
        assert_eq!(s3reader_seek(100, cursor, SeekFrom::Current(0)).unwrap(), cursor);
    }
}

#[test]
fn seek_round_trip_start_end() {
    // Start(0) then End(0) lands on the length
    let at_start = s3reader_seek(100, 42, SeekFrom::Start(0)).unwrap();
    assert_eq!(at_start, 0);
    assert_eq!(s3reader_seek(100, at_start, SeekFrom::End(0)).unwrap(), 100);

    // End(0) then Current(-length) lands on zero
    let at_end = s3reader_seek(100, 42, SeekFrom::End(0)).unwrap();
    assert_eq!(at_end, 100);
    assert_eq!(s3reader_seek(100, at_end, SeekFrom::Current(-100)).unwrap(), 0);
}
