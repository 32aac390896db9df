use rzp::archive::{Archive, EntryKind};
use rzp::extract::{base_dir, contained_name, join, plan_extraction, ExtractError};
use std::io::{Cursor, Write};
use zip::write::SimpleFileOptions;
use zip::ZipWriter;

fn archive_of(entries: &[(&str, Option<&[u8]>)]) -> Archive {
    let mut w = ZipWriter::new(Cursor::new(Vec::new()));
    for (name, content) in entries {
        match content {
            None => w.add_directory(*name, SimpleFileOptions::default()).unwrap(),
            Some(c) => {
                w.start_file(*name, SimpleFileOptions::default().unix_permissions(0o640))
                    .unwrap();
                w.write_all(c).unwrap();
            }
        }
    }
    Archive::open(w.finish().unwrap().into_inner()).ok().unwrap()
}

#[test]
fn plan_nests_under_archive_stem() {
    let mut a = archive_of(&[("readme.txt", Some(b"read me"))]);
    let p = plan_extraction(&mut a, "destination", "bundle.zip", true);
    assert_eq!(p.base, "destination/bundle");
    assert!(p.failure.is_none());
    assert_eq!(p.steps.len(), 1);
    assert_eq!(p.steps[0].target, "destination/bundle/readme.txt");
    assert_ne!(p.steps[0].target, "destination/readme.txt");
}

#[test]
fn plan_without_nesting_uses_destination() {
    let mut a = archive_of(&[
        ("dirA/", None),
        ("dirA/file1.txt", Some(b"one")),
        ("file2.txt", Some(b"two")),
    ]);
    let p = plan_extraction(&mut a, "out", "some/where/bundle.zip", false);
    assert_eq!(p.base, "out");
    assert!(p.failure.is_none());
    let targets: Vec<&str> = p.steps.iter().map(|s| s.target.as_str()).collect();
    assert_eq!(targets, vec!["out/dirA/", "out/dirA/file1.txt", "out/file2.txt"]);
    assert_eq!(p.steps[0].kind, EntryKind::Directory);
    assert_eq!(p.steps[1].kind, EntryKind::RegularFile);
    assert_eq!(p.steps[2].index, 2);
    assert_eq!(p.steps[1].mode.map(|m| m & 0o777), Some(0o640));
}

#[test]
fn plan_stops_at_escaping_name() {
    let mut a = archive_of(&[
        ("ok.txt", Some(b"fine")),
        ("../evil.txt", Some(b"bad")),
        ("later.txt", Some(b"never")),
    ]);
    let p = plan_extraction(&mut a, "out", "x.zip", false);
    assert_eq!(p.steps.len(), 1);
    assert_eq!(p.failure, Some(ExtractError::UnsafeName("../evil.txt".to_string())));
}

#[test]
fn contained_names() {
    assert!(contained_name("a/b.txt"));
    assert!(contained_name("a..b/c"));
    assert!(contained_name("dir/"));
    assert!(!contained_name(""));
    assert!(!contained_name("/etc/passwd"));
    assert!(!contained_name("\\windows"));
    assert!(!contained_name("C:/x"));
    assert!(!contained_name(".."));
    assert!(!contained_name("a/../../b"));
    assert!(!contained_name("a\\.."));
}

#[test]
fn join_inserts_one_separator() {
    assert_eq!(join("out", "a.txt"), "out/a.txt");
    assert_eq!(join("out/", "a.txt"), "out/a.txt");
    assert_eq!(join("", "a.txt"), "a.txt");
}

#[test]
fn base_dir_uses_file_stem() {
    assert_eq!(base_dir(".", "archives/photos.tar.zip", true), "./photos.tar");
    assert_eq!(base_dir(".", "archives/photos.zip", false), ".");
}

/// An archive whose first entry, `a.txt`, names a compression method that
/// no reader supports, followed by a readable `b.txt`.
fn archive_with_unreadable_first_entry() -> Archive {
    let mut w = ZipWriter::new(Cursor::new(Vec::new()));
    let stored = SimpleFileOptions::default().compression_method(zip::CompressionMethod::Stored);
    w.start_file("a.txt", stored).unwrap();
    w.write_all(b"first").unwrap();
    w.start_file("b.txt", stored).unwrap();
    w.write_all(b"second").unwrap();
    let mut bytes = w.finish().unwrap().into_inner();
    bytes[8] = 77;
    bytes[9] = 0;
    let central = bytes
        .windows(4)
        .position(|w| w == [0x50, 0x4B, 0x01, 0x02])
        .unwrap();
    bytes[central + 10] = 77;
    bytes[central + 11] = 0;
    Archive::open(bytes).ok().unwrap()
}

#[test]
fn plan_names_the_entry_that_cannot_be_read() {
    let mut a = archive_with_unreadable_first_entry();
    assert_eq!(a.len(), 2);
    assert!(a.entry_at(0).is_err());
    assert!(a.entry_at(1).is_ok());
    assert_eq!(a.name_at(0), Some("a.txt".to_string()));
    assert_eq!(a.name_at(2), None);
    let p = plan_extraction(&mut a, "out", "x.zip", false);
    assert!(p.steps.is_empty());
    match p.failure {
        Some(ExtractError::Read { entry_name, .. }) => assert_eq!(entry_name, "a.txt"),
        other => panic!("unexpected outcome {:?}", other),
    }
}
