use rzp::pipeline::{header_of, listing_requested, open_validated, ArchiveError};
use rzp::signature::{classify_mime, validate, ValidationError};
use std::io::{Cursor, Write};
use zip::write::SimpleFileOptions;
use zip::ZipWriter;

fn small_zip() -> Vec<u8> {
    let mut w = ZipWriter::new(Cursor::new(Vec::new()));
    w.start_file("hello.txt", SimpleFileOptions::default()).unwrap();
    w.write_all(b"hello").unwrap();
    w.finish().unwrap().into_inner()
}

#[test]
fn validate_accepts_zip() {
    assert_eq!(validate(&small_zip()), Ok(()));
}

#[test]
fn validate_rejects_unknown_content() {
    assert_eq!(validate(b"just some plain words"), Err(ValidationError::NotAnArchive));
    assert_eq!(validate(b""), Err(ValidationError::NotAnArchive));
}

#[test]
fn validate_rejects_other_types() {
    let png = [0x89, 0x50, 0x4E, 0x47, 0x0D, 0x0A, 0x1A, 0x0A, 0, 0, 0, 0x0D];
    assert_eq!(validate(&png), Err(ValidationError::WrongArchiveType));
}

#[test]
fn classify_mime_decides_on_zip_only() {
    assert_eq!(classify_mime(&Some("application/zip".to_string())), Ok(()));
    assert_eq!(
        classify_mime(&Some("image/png".to_string())),
        Err(ValidationError::WrongArchiveType)
    );
    assert_eq!(classify_mime(&None), Err(ValidationError::NotAnArchive));
}

#[test]
fn open_validated_refuses_before_parsing() {
    match open_validated(b"not an archive at all".to_vec()) {
        Err(ArchiveError::Invalid(ValidationError::NotAnArchive)) => {}
        _ => panic!("expected the signature check to refuse the input"),
    }
}

#[test]
fn open_validated_reports_corrupt_archive() {
    let mut bytes = vec![0x50, 0x4B, 0x03, 0x04];
    bytes.extend_from_slice(&[0u8; 40]);
    match open_validated(bytes) {
        Err(ArchiveError::Read(_)) => {}
        _ => panic!("expected a read failure"),
    }
}

#[test]
fn open_validated_opens_zip() {
    let archive = open_validated(small_zip()).ok().unwrap();
    assert_eq!(archive.len(), 1);
}

#[test]
fn header_is_bounded() {
    let big = vec![7u8; 10000];
    assert_eq!(header_of(&big).len(), 8192);
    let small = vec![1u8, 2, 3];
    assert_eq!(header_of(&small), small);
}

#[test]
fn listing_is_the_default_mode() {
    assert!(listing_requested(false, false));
    assert!(listing_requested(true, false));
    assert!(listing_requested(true, true));
    assert!(!listing_requested(false, true));
}
