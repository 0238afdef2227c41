use std::io::Write;

use vapr_core::archive::{plan_extraction, read_archive, should_report_entry, ArchiveEntry, ExtractAction};
use vapr_core::errors::LauncherError;

fn build_archive(entries: &[(&str, &[u8], Option<u32>)], dirs: &[&str]) -> Vec<u8> {
    let cursor = std::io::Cursor::new(Vec::new());
    let mut writer = zip::ZipWriter::new(cursor);
    for dir in dirs {
        let options = zip::write::SimpleFileOptions::default();
        writer.add_directory(*dir, options).unwrap();
    }
    for (name, data, mode) in entries {
        let mut options = zip::write::SimpleFileOptions::default();
        if let Some(m) = mode {
            options = options.unix_permissions(*m);
        }
        writer.start_file(*name, options).unwrap();
        writer.write_all(data).unwrap();
    }
    writer.finish().unwrap().into_inner()
}

#[test]
fn garbage_bytes_are_an_archive_format_error() {
    let garbage = vec![0u8, 1, 2, 3, 4, 5, 6, 7];
    let r = read_archive(&garbage);
    assert!(matches!(r, Err(LauncherError::ArchiveFormat)));
    let empty = Vec::new();
    assert!(matches!(read_archive(&empty), Err(LauncherError::ArchiveFormat)));
}

#[test]
fn entries_round_trip_through_the_archive() {
    let image = build_archive(
        &[
            ("game.exe", b"MZ-binary-bytes", Some(0o755)),
            ("assets/readme.txt", b"hello", None),
        ],
        &["assets/"],
    );
    let entries = read_archive(&image).unwrap();
    assert_eq!(entries.len(), 3);
    assert_eq!(entries[0].name, b"assets/".to_vec());
    assert_eq!(entries[0].data, Vec::<u8>::new());
    assert_eq!(entries[1].name, b"game.exe".to_vec());
    assert_eq!(entries[1].data, b"MZ-binary-bytes".to_vec());
    assert_eq!(entries[1].unix_mode, Some(0o100755));
    assert_eq!(entries[2].name, b"assets/readme.txt".to_vec());
    assert_eq!(entries[2].data, b"hello".to_vec());
}

#[test]
fn the_plan_extracts_files_and_directories() {
    let entries = vec![
        ArchiveEntry { name: b"sub/".to_vec(), data: Vec::new(), unix_mode: None },
        ArchiveEntry { name: b"sub/a.bin".to_vec(), data: vec![1, 2, 3], unix_mode: Some(0o644) },
    ];
    let plan = plan_extraction(entries);
    assert_eq!(plan.len(), 2);
    match &plan[0] {
        ExtractAction::MakeDir { rel_path } => assert_eq!(rel_path, &b"sub/".to_vec()),
        _ => panic!("a name ending in the separator makes a directory"),
    }
    match &plan[1] {
        ExtractAction::WriteFile { rel_path, data, unix_mode } => {
            assert_eq!(rel_path, &b"sub/a.bin".to_vec());
            assert_eq!(data, &vec![1, 2, 3]);
            assert_eq!(unix_mode, &Some(0o644));
        }
        _ => panic!("a file entry makes a file write"),
    }
}

#[test]
fn escaping_entries_are_never_written() {
    let entries = vec![
        ArchiveEntry { name: b"../../evil".to_vec(), data: vec![9, 9, 9], unix_mode: None },
        ArchiveEntry { name: b"/etc/shadow".to_vec(), data: vec![1], unix_mode: None },
        ArchiveEntry { name: b"ok.txt".to_vec(), data: vec![7], unix_mode: None },
        ArchiveEntry { name: b"sub/../up".to_vec(), data: vec![2], unix_mode: None },
    ];
    let plan = plan_extraction(entries);
    assert_eq!(plan.len(), 1);
    match &plan[0] {
        ExtractAction::WriteFile { rel_path, data, .. } => {
            assert_eq!(rel_path, &b"ok.txt".to_vec());
            assert_eq!(data, &vec![7]);
        }
        _ => panic!("only the confined entry may be written"),
    }
}

#[test]
fn a_malicious_archive_image_yields_no_escaping_action() {
    let image = build_archive(&[("../../evil", b"payload", None)], &[]);
    let entries = read_archive(&image).unwrap();
    assert_eq!(entries.len(), 1);
    assert_eq!(entries[0].name, b"../../evil".to_vec());
    let plan = plan_extraction(entries);
    assert!(plan.is_empty());
}

#[test]
fn extraction_status_cadence_is_every_tenth_entry() {
    assert!(should_report_entry(0));
    assert!(!should_report_entry(1));
    assert!(!should_report_entry(9));
    assert!(should_report_entry(10));
    assert!(should_report_entry(20));
    assert!(!should_report_entry(25));
}
