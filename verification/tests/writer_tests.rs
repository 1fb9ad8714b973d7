//! End-to-end tests: archives written by the library are read back through
//! the real tar and gzip readers.

use fastar::ArchiveError;
use fastar::ArchiveWriter;
use fastar::DirChild;
use fastar::FsNode;

fn file_node(content: &[u8]) -> FsNode {
    FsNode::File { mode: 0o644, mtime: 42, content: content.to_vec() }
}

fn dir_node(children: Vec<DirChild>) -> FsNode {
    FsNode::Dir { mode: 0o755, mtime: 7, children }
}

fn child(name: &str, node: FsNode) -> DirChild {
    DirChild { name: name.to_string(), node }
}

fn read_entries(bytes: &[u8]) -> Vec<(String, Vec<u8>, tar::EntryType)> {
    let mut ar = tar::Archive::new(bytes);
    let mut out = Vec::new();
    for entry in ar.entries().unwrap() {
        let mut e = entry.unwrap();
        let name = e.path().unwrap().to_string_lossy().into_owned();
        let kind = e.header().entry_type();
        let mut data = Vec::new();
        std::io::Read::read_to_end(&mut e, &mut data).unwrap();
        out.push((name, data, kind));
    }
    out
}

fn gunzip(bytes: &[u8]) -> Vec<u8> {
    let mut d = flate2::read::GzDecoder::new(bytes);
    let mut out = Vec::new();
    std::io::Read::read_to_end(&mut d, &mut out).unwrap();
    out
}

#[test]
fn open_rejects_unknown_mode() {
    assert!(matches!(ArchiveWriter::open("r"), Err(ArchiveError::UnsupportedMode)));
    assert!(matches!(ArchiveWriter::open(""), Err(ArchiveError::UnsupportedMode)));
    assert!(matches!(ArchiveWriter::open("w:bz2"), Err(ArchiveError::UnsupportedMode)));
    assert!(ArchiveWriter::open("w").is_ok());
    assert!(ArchiveWriter::open("w:gz").is_ok());
}

#[test]
fn empty_archive_raw_has_zero_entries() {
    let mut w = ArchiveWriter::open("w").unwrap();
    w.close();
    let entries = read_entries(w.output_bytes());
    assert_eq!(entries.len(), 0);
}

#[test]
fn empty_archive_gz_has_zero_entries() {
    let mut w = ArchiveWriter::open("w:gz").unwrap();
    w.close();
    let raw = gunzip(w.output_bytes());
    let entries = read_entries(&raw);
    assert_eq!(entries.len(), 0);
}

#[test]
fn single_file_content_preserved() {
    let mut w = ArchiveWriter::open("w").unwrap();
    let f = file_node(b"hello world");
    w.add("/tmp/readme.txt", Some(&f), None, true, false).unwrap();
    w.close();
    let entries = read_entries(w.output_bytes());
    assert_eq!(entries.len(), 1);
    assert_eq!(entries[0].0, "readme.txt");
    assert_eq!(entries[0].1, b"hello world".to_vec());
    assert_eq!(entries[0].2, tar::EntryType::Regular);
}

#[test]
fn directory_recursive_holds_all_files() {
    let d = dir_node(vec![
        child("a.txt", file_node(b"alpha")),
        child("b.txt", file_node(b"beta")),
        child("c.txt", file_node(b"gamma")),
    ]);
    let mut w = ArchiveWriter::open("w").unwrap();
    w.add("/tmp/d", Some(&d), None, true, false).unwrap();
    w.close();
    let entries = read_entries(w.output_bytes());
    assert_eq!(entries.len(), 4);
    assert_eq!(entries[0].0, "d");
    assert_eq!(entries[0].2, tar::EntryType::Directory);
    assert_eq!(entries[1].0, "d/a.txt");
    assert_eq!(entries[1].1, b"alpha".to_vec());
    assert_eq!(entries[2].0, "d/b.txt");
    assert_eq!(entries[2].1, b"beta".to_vec());
    assert_eq!(entries[3].0, "d/c.txt");
    assert_eq!(entries[3].1, b"gamma".to_vec());
}

#[test]
fn directory_non_recursive_holds_one_dir_entry() {
    let d = dir_node(vec![
        child("a.txt", file_node(b"alpha")),
        child("b.txt", file_node(b"beta")),
    ]);
    let mut w = ArchiveWriter::open("w").unwrap();
    w.add("/tmp/d", Some(&d), None, false, false).unwrap();
    w.close();
    let entries = read_entries(w.output_bytes());
    assert_eq!(entries.len(), 1);
    assert_eq!(entries[0].0, "d");
    assert_eq!(entries[0].2, tar::EntryType::Directory);
    let files = entries.iter().filter(|e| e.2 == tar::EntryType::Regular).count();
    assert_eq!(files, 0);
}

#[test]
fn nested_directories_keep_structure() {
    let inner = dir_node(vec![child("deep.txt", file_node(b"deep"))]);
    let d = dir_node(vec![child("sub", inner), child("top.txt", file_node(b"top"))]);
    let mut w = ArchiveWriter::open("w").unwrap();
    w.add("proj", Some(&d), Some("bundle"), true, false).unwrap();
    w.close();
    let entries = read_entries(w.output_bytes());
    let names: Vec<String> = entries.iter().map(|e| e.0.clone()).collect();
    assert_eq!(names, vec!["bundle", "bundle/sub", "bundle/sub/deep.txt", "bundle/top.txt"]);
}

#[test]
fn close_twice_is_idempotent() {
    let mut w = ArchiveWriter::open("w").unwrap();
    let f = file_node(b"x");
    w.add("x.bin", Some(&f), None, true, false).unwrap();
    w.close();
    let first = w.output_bytes().clone();
    w.close();
    assert_eq!(w.output_bytes(), &first);
    assert!(!w.is_open());
}

#[test]
fn add_after_close_fails_and_writes_nothing() {
    let mut w = ArchiveWriter::open("w").unwrap();
    w.close();
    let before = w.output_bytes().clone();
    let f = file_node(b"late");
    let r = w.add("late.txt", Some(&f), None, true, false);
    assert!(matches!(r, Err(ArchiveError::ArchiveClosed)));
    assert_eq!(w.output_bytes(), &before);
    let entries = read_entries(w.output_bytes());
    assert_eq!(entries.len(), 0);
}

#[test]
fn underivable_name_fails_and_leaves_archive_unmodified() {
    let mut w = ArchiveWriter::open("w").unwrap();
    let f = file_node(b"data");
    assert!(matches!(
        w.add("", Some(&f), None, true, false),
        Err(ArchiveError::NameDerivation)
    ));
    assert!(matches!(
        w.add("/", Some(&f), None, true, false),
        Err(ArchiveError::NameDerivation)
    ));
    assert!(matches!(
        w.add("a/..", Some(&f), None, true, false),
        Err(ArchiveError::NameDerivation)
    ));
    w.close();
    let entries = read_entries(w.output_bytes());
    assert_eq!(entries.len(), 0);
}

#[test]
fn explicit_arcname_skips_derivation() {
    let mut w = ArchiveWriter::open("w").unwrap();
    let f = file_node(b"data");
    w.add("", Some(&f), Some("given.bin"), true, false).unwrap();
    w.close();
    let entries = read_entries(w.output_bytes());
    assert_eq!(entries.len(), 1);
    assert_eq!(entries[0].0, "given.bin");
}

#[test]
fn missing_source_is_reported() {
    let mut w = ArchiveWriter::open("w").unwrap();
    assert!(matches!(
        w.add("gone.txt", None, None, true, false),
        Err(ArchiveError::MissingSource)
    ));
    let broken = FsNode::Symlink {
        mode: 0o777,
        mtime: 1,
        target: "nowhere".to_string(),
        resolved: None,
    };
    assert!(matches!(
        w.add("lnk", Some(&broken), None, true, false),
        Err(ArchiveError::MissingSource)
    ));
    w.close();
    assert_eq!(read_entries(w.output_bytes()).len(), 0);
}

#[test]
fn gzip_round_trip_preserves_names_and_contents_in_order() {
    let mut w = ArchiveWriter::open("w:gz").unwrap();
    let names = ["one.txt", "two.txt", "three.txt"];
    let bodies: [&[u8]; 3] = [b"first", b"second", b"third"];
    for (name, body) in names.iter().zip(bodies.iter()) {
        let f = file_node(body);
        w.add(name, Some(&f), None, true, false).unwrap();
    }
    w.close();
    let raw = gunzip(w.output_bytes());
    let entries = read_entries(&raw);
    assert_eq!(entries.len(), 3);
    for (i, (name, body)) in names.iter().zip(bodies.iter()).enumerate() {
        assert_eq!(&entries[i].0, name);
        assert_eq!(&entries[i].1, body);
    }
}

#[test]
fn example_flow_readme_and_bundle() {
    let mut w = ArchiveWriter::open("w:gz").unwrap();
    let readme = file_node(b"read me");
    w.add("/tmp/readme.txt", Some(&readme), None, true, false).unwrap();
    let proj = dir_node(vec![
        child("main.rs", file_node(b"fn main() {}")),
        child("notes.md", file_node(b"# notes")),
    ]);
    w.add("/tmp/proj", Some(&proj), Some("bundle"), true, false).unwrap();
    w.close();
    let raw = gunzip(w.output_bytes());
    let entries = read_entries(&raw);
    let names: Vec<String> = entries.iter().map(|e| e.0.clone()).collect();
    assert_eq!(names, vec!["readme.txt", "bundle", "bundle/main.rs", "bundle/notes.md"]);
}

#[test]
fn symlink_stored_as_itself_without_dereference() {
    let lnk = FsNode::Symlink {
        mode: 0o777,
        mtime: 5,
        target: "real.txt".to_string(),
        resolved: Some(Box::new(file_node(b"real content"))),
    };
    let mut w = ArchiveWriter::open("w").unwrap();
    w.add("lnk.txt", Some(&lnk), None, true, false).unwrap();
    w.close();
    let bytes = w.output_bytes().clone();
    let mut ar = tar::Archive::new(&bytes[..]);
    let mut it = ar.entries().unwrap();
    let e = it.next().unwrap().unwrap();
    assert_eq!(e.header().entry_type(), tar::EntryType::Symlink);
    let target = e.link_name().unwrap().unwrap().to_string_lossy().into_owned();
    assert_eq!(target, "real.txt");
    assert!(it.next().is_none());
}

#[test]
fn symlink_followed_with_dereference() {
    let lnk = FsNode::Symlink {
        mode: 0o777,
        mtime: 5,
        target: "real.txt".to_string(),
        resolved: Some(Box::new(file_node(b"real content"))),
    };
    let mut w = ArchiveWriter::open("w").unwrap();
    w.add("lnk.txt", Some(&lnk), None, true, true).unwrap();
    w.close();
    let entries = read_entries(w.output_bytes());
    assert_eq!(entries.len(), 1);
    assert_eq!(entries[0].0, "lnk.txt");
    assert_eq!(entries[0].1, b"real content".to_vec());
    assert_eq!(entries[0].2, tar::EntryType::Regular);
}

#[test]
fn file_metadata_is_recorded() {
    let f = FsNode::File { mode: 0o600, mtime: 1234567, content: b"m".to_vec() };
    let mut w = ArchiveWriter::open("w").unwrap();
    w.add("m.txt", Some(&f), None, true, false).unwrap();
    w.close();
    let bytes = w.output_bytes().clone();
    let mut ar = tar::Archive::new(&bytes[..]);
    let mut it = ar.entries().unwrap();
    let e = it.next().unwrap().unwrap();
    assert_eq!(e.header().mode().unwrap(), 0o600);
    assert_eq!(e.header().mtime().unwrap(), 1234567);
}

#[test]
fn long_entry_names_survive() {
    let long = "p".repeat(60) + "/" + &"q".repeat(80) + ".txt";
    let f = file_node(b"long");
    let mut w = ArchiveWriter::open("w").unwrap();
    w.add("ignored", Some(&f), Some(&long), true, false).unwrap();
    w.close();
    let entries = read_entries(w.output_bytes());
    assert_eq!(entries.len(), 1);
    assert_eq!(entries[0].0, long);
    assert_eq!(entries[0].1, b"long".to_vec());
}

#[test]
fn symlink_child_stored_or_followed_inside_directory() {
    let make_dir = || {
        dir_node(vec![
            child(
                "ln",
                FsNode::Symlink {
                    mode: 0o777,
                    mtime: 3,
                    target: "a.txt".to_string(),
                    resolved: Some(Box::new(file_node(b"linked"))),
                },
            ),
        ])
    };
    let mut w = ArchiveWriter::open("w").unwrap();
    w.add("d", Some(&make_dir()), None, true, false).unwrap();
    w.close();
    let entries = read_entries(w.output_bytes());
    assert_eq!(entries.len(), 2);
    assert_eq!(entries[1].0, "d/ln");
    assert_eq!(entries[1].2, tar::EntryType::Symlink);

    let mut w = ArchiveWriter::open("w").unwrap();
    w.add("d", Some(&make_dir()), None, true, true).unwrap();
    w.close();
    let entries = read_entries(w.output_bytes());
    assert_eq!(entries.len(), 2);
    assert_eq!(entries[1].0, "d/ln");
    assert_eq!(entries[1].2, tar::EntryType::Regular);
    assert_eq!(entries[1].1, b"linked".to_vec());
}

#[test]
fn broken_symlink_child_fails_mid_walk_without_rollback() {
    let d = dir_node(vec![
        child("a.txt", file_node(b"kept")),
        child(
            "broken",
            FsNode::Symlink {
                mode: 0o777,
                mtime: 3,
                target: "gone".to_string(),
                resolved: None,
            },
        ),
    ]);
    let mut w = ArchiveWriter::open("w").unwrap();
    let r = w.add("d", Some(&d), None, true, true);
    assert!(matches!(r, Err(ArchiveError::Io)));
    w.close();
    let entries = read_entries(w.output_bytes());
    let names: Vec<String> = entries.iter().map(|e| e.0.clone()).collect();
    assert_eq!(names, vec!["d", "d/a.txt"]);
}

#[test]
fn symlink_to_directory_is_archived_as_directory() {
    let lnk = FsNode::Symlink {
        mode: 0o777,
        mtime: 9,
        target: "realdir".to_string(),
        resolved: Some(Box::new(dir_node(vec![child("x.txt", file_node(b"x"))]))),
    };
    let mut w = ArchiveWriter::open("w").unwrap();
    w.add("d", Some(&lnk), None, true, false).unwrap();
    w.close();
    let entries = read_entries(w.output_bytes());
    let names: Vec<String> = entries.iter().map(|e| e.0.clone()).collect();
    assert_eq!(names, vec!["d", "d/x.txt"]);
    assert_eq!(entries[0].2, tar::EntryType::Directory);
}

#[test]
fn invalid_archive_name_reports_io_error() {
    let f = file_node(b"x");
    let mut w = ArchiveWriter::open("w").unwrap();
    assert!(matches!(
        w.add("p", Some(&f), Some("/abs/name"), true, false),
        Err(ArchiveError::Io)
    ));
    assert!(matches!(
        w.add("p", Some(&f), Some("a/../b"), true, false),
        Err(ArchiveError::Io)
    ));
}
