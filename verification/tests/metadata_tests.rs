use s3reader::Metadata;

#[test]
fn metadata_reports_length_and_modified_time() {
    let meta = Metadata::new(42, Some(123));
    assert_eq!(meta.len(), 42);
    assert_eq!(meta.modified(), Some(123));

    let bare = Metadata::new(0, None);
    assert_eq!(bare.len(), 0);
    assert_eq!(bare.modified(), None);
}

#[test]
fn objects_are_plain_read_only_files() {
    let meta = Metadata::new(42, None);
    assert!(meta.is_file());
    assert!(!meta.is_dir());
    assert!(!meta.is_symlink());
    assert!(meta.file_type().is_file());
    assert!(!meta.file_type().is_dir());
    assert!(!meta.file_type().is_symlink());
    assert!(meta.permissions().readonly());
}
