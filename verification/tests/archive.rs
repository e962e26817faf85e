use std::io::{Cursor, Write};

use esp_scaffold::archive::{root_prefix, Archive, ArchiveEntry, CorruptArchive};
use zip::write::{FileOptions, ZipWriter};
use zip::CompressionMethod;

fn container(entries: &[(&str, Option<&[u8]>)], method: CompressionMethod) -> Vec<u8> {
    let mut writer = ZipWriter::new(Cursor::new(Vec::new()));
    for (name, content) in entries {
        match content {
            None => writer.add_directory(*name, FileOptions::default()).unwrap(),
            Some(bytes) => {
                writer.start_file(*name, FileOptions::default().compression_method(method)).unwrap();
                writer.write_all(bytes).unwrap();
            }
        }
    }
    writer.finish().unwrap().into_inner()
}

fn template_container(method: CompressionMethod) -> Vec<u8> {
    container(
        &[
            ("tmpl-1.0/", None),
            ("tmpl-1.0/main/", None),
            ("tmpl-1.0/main/main.c", Some(b"void app_main(void) {}\n")),
            ("tmpl-1.0/CMakeLists.txt", Some(b"cmake_minimum_required(VERSION 3.5)\n")),
        ],
        method,
    )
}

#[test]
fn open_reads_the_directory() {
    let archive = Archive::open(template_container(CompressionMethod::Deflated)).unwrap();
    assert_eq!(archive.len(), 4);
}

#[test]
fn open_of_an_empty_archive() {
    let archive = Archive::open(container(&[], CompressionMethod::Stored)).unwrap();
    assert_eq!(archive.len(), 0);
}

#[test]
fn open_fails_on_what_is_no_archive() {
    assert!(matches!(Archive::open(Vec::new()), Err(CorruptArchive { .. })));
    assert!(matches!(Archive::open(vec![1, 2, 3]), Err(CorruptArchive { .. })));
    assert!(matches!(
        Archive::open(b"this is plainly not a zip container at all".to_vec()),
        Err(CorruptArchive { .. })
    ));
}

#[test]
fn failure_to_open_says_why() {
    match Archive::open(b"not an archive".to_vec()) {
        Err(error) => {
            assert!(error.detail.contains("invalid Zip archive"), "{}", error.detail);
            assert_eq!(error.entry, None);
        }
        Ok(_) => panic!("opened what is no archive"),
    }
}

#[test]
fn open_fails_on_a_truncated_archive() {
    let mut bytes = template_container(CompressionMethod::Deflated);
    bytes.truncate(bytes.len() / 2);
    assert!(Archive::open(bytes).is_err());
}

#[test]
fn entries_come_in_the_order_of_the_archive() {
    let mut archive = Archive::open(template_container(CompressionMethod::Deflated)).unwrap();
    let names: Vec<String> =
        (0..archive.len()).map(|i| archive.entry_at(i).unwrap().raw_path).collect();
    assert_eq!(
        names,
        vec!["tmpl-1.0/", "tmpl-1.0/main/", "tmpl-1.0/main/main.c", "tmpl-1.0/CMakeLists.txt"]
    );
}

#[test]
fn entry_holds_name_and_content() {
    for method in [CompressionMethod::Stored, CompressionMethod::Deflated] {
        let mut archive = Archive::open(template_container(method)).unwrap();
        assert_eq!(
            archive.entry_at(2),
            Ok(ArchiveEntry {
                raw_path: "tmpl-1.0/main/main.c".to_string(),
                enclosed: true,
                content: b"void app_main(void) {}\n".to_vec(),
            })
        );
        assert_eq!(
            archive.entry_at(3).unwrap().content,
            b"cmake_minimum_required(VERSION 3.5)\n".to_vec()
        );
    }
}

#[test]
fn compressed_content_is_decompressed() {
    let text = vec![b'a'; 10_000];
    let bytes = container(&[("root/", None), ("root/big.txt", Some(&text))], CompressionMethod::Deflated);
    assert!(bytes.len() < 2_000);
    let mut archive = Archive::open(bytes).unwrap();
    assert_eq!(archive.entry_at(1).unwrap().content, text);
}

#[test]
fn entry_can_be_read_again() {
    let mut archive = Archive::open(template_container(CompressionMethod::Deflated)).unwrap();
    let first = archive.entry_at(2).unwrap();
    let other = archive.entry_at(3).unwrap();
    let again = archive.entry_at(2).unwrap();
    assert_eq!(first, again);
    assert_ne!(first, other);
    assert_eq!(archive.len(), 4);
}

#[test]
fn directory_entries_end_in_a_separator() {
    let mut archive = Archive::open(template_container(CompressionMethod::Stored)).unwrap();
    let root = archive.entry_at(0).unwrap();
    assert!(root.is_directory());
    assert!(root.content.is_empty());
    assert!(archive.entry_at(1).unwrap().is_directory());
    assert!(!archive.entry_at(2).unwrap().is_directory());
}

#[test]
fn is_directory_goes_by_the_name() {
    let entry = |name: &str| ArchiveEntry {
        raw_path: name.to_string(),
        enclosed: true,
        content: Vec::new(),
    };
    assert!(entry("a/").is_directory());
    assert!(entry("/").is_directory());
    assert!(!entry("").is_directory());
    assert!(!entry("a").is_directory());
    assert!(!entry("a/b").is_directory());
    assert!(!entry("a\\").is_directory());
}

#[test]
fn unsafe_names_are_not_enclosed() {
    let bytes = container(
        &[
            ("root/", None),
            ("root/fine.txt", Some(b"1")),
            ("../outside.txt", Some(b"2")),
            ("root/../../outside.txt", Some(b"3")),
            ("/absolute.txt", Some(b"4")),
            ("root/a/../b.txt", Some(b"5")),
        ],
        CompressionMethod::Stored,
    );
    let mut archive = Archive::open(bytes).unwrap();
    let enclosed: Vec<bool> =
        (0..archive.len()).map(|i| archive.entry_at(i).unwrap().enclosed).collect();
    assert_eq!(enclosed, vec![true, true, false, false, false, true]);
}

#[test]
fn damaged_entry_cannot_be_read() {
    let content = b"content that will be damaged";
    let mut bytes = container(
        &[("root/", None), ("root/a.txt", Some(content)), ("root/b.txt", Some(b"intact"))],
        CompressionMethod::Stored,
    );
    let at = bytes.windows(content.len()).position(|window| window == content).unwrap();
    bytes[at] ^= 0xff;
    let mut archive = Archive::open(bytes).unwrap();
    assert_eq!(archive.len(), 3);
    let error = archive.entry_at(1).unwrap_err();
    assert_eq!(error.entry, Some("root/a.txt".to_string()));
    assert!(!error.detail.is_empty());
    assert_eq!(archive.entry_at(2).unwrap().content, b"intact".to_vec());
    assert_eq!(archive.entry_at(1), Err(error));
}

#[test]
fn root_prefix_is_the_path_of_the_first_entry() {
    let mut archive = Archive::open(template_container(CompressionMethod::Deflated)).unwrap();
    assert_eq!(root_prefix(&mut archive), Some("tmpl-1.0/".to_string()));
    assert_eq!(archive.len(), 4);
    assert_eq!(root_prefix(&mut archive), Some("tmpl-1.0/".to_string()));
}

#[test]
fn root_prefix_goes_by_the_order_of_the_archive() {
    let bytes = container(
        &[("zzz-master/", None), ("aaa.txt", Some(b"1"))],
        CompressionMethod::Stored,
    );
    let mut archive = Archive::open(bytes).unwrap();
    assert_eq!(root_prefix(&mut archive), Some("zzz-master/".to_string()));
}

#[test]
fn empty_archive_has_no_root_prefix() {
    let mut archive = Archive::open(container(&[], CompressionMethod::Stored)).unwrap();
    assert_eq!(root_prefix(&mut archive), None);
}

#[test]
fn archive_with_damaged_first_entry_has_no_root_prefix() {
    let content = b"first entry that will be damaged";
    let mut bytes = container(
        &[("root.txt", Some(content)), ("other.txt", Some(b"intact"))],
        CompressionMethod::Stored,
    );
    let at = bytes.windows(content.len()).position(|window| window == content).unwrap();
    bytes[at] ^= 0xff;
    let mut archive = Archive::open(bytes).unwrap();
    assert_eq!(root_prefix(&mut archive), None);
}

#[test]
fn entry_of_unknown_compression_is_named_in_the_error() {
    let content = b"stored as it is";
    let mut bytes = container(
        &[("root/", None), ("root/odd.bin", Some(content))],
        CompressionMethod::Stored,
    );
    // The compression method stands two bytes before the time stamp, eight
    // bytes into the local header and ten bytes into the central one.
    let name = b"root/odd.bin";
    let mut changed = 0;
    for at in 0..bytes.len() - name.len() {
        if &bytes[at..at + name.len()] == name {
            let header = if changed == 0 { at - 30 } else { at - 46 };
            let method = if changed == 0 { header + 8 } else { header + 10 };
            bytes[method] = 14;
            changed += 1;
        }
    }
    assert_eq!(changed, 2);
    let mut archive = Archive::open(bytes).unwrap();
    let error = archive.entry_at(1).unwrap_err();
    assert_eq!(error.entry, Some("root/odd.bin".to_string()));
}
