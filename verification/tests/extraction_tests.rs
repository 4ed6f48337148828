use bzmm::extraction::{
    names_directory, ArchiveOpen, EntryInfo, ExtractEvent, ExtractStep, Extraction, ExtractionStatus,
    WriteFailure,
};

fn entry(name: &str, enclosed: Option<&str>) -> ExtractEvent {
    ExtractEvent::Entry(Ok(EntryInfo {
        name: name.to_string(),
        enclosed_name: enclosed.map(|s| s.to_string()),
    }))
}

#[test]
fn directory_entries_end_with_slash() {
    assert!(names_directory("Mod/"));
    assert!(!names_directory("Mod/file.lua"));
    assert!(!names_directory(""));
}

#[test]
fn status_announcements() {
    let s = ExtractionStatus::extracting("Test Mod.zip");
    assert_eq!(s.mod_name, "Test Mod.zip");
    assert_eq!(s.status, "extracting");
    assert_eq!(ExtractionStatus::completed("m").status, "completed");
}

#[test]
fn extraction_checks_then_writes_safe_entries() {
    let mut x = Extraction::new("/dl/a/M.zip".to_string(), "/dl/a/M".to_string(), "M.zip".to_string(), false);
    match x.start() {
        ExtractStep::Announce(s) => assert_eq!(s.status, "extracting"),
        other => panic!("{:?}", other),
    }
    match x.resume(ExtractEvent::Announced(Ok(()))) {
        ExtractStep::CreateDirectory(d) => assert_eq!(d, "/dl/a/M"),
        other => panic!("{:?}", other),
    }
    match x.resume(ExtractEvent::Done(Ok(()))) {
        ExtractStep::OpenArchive(z) => assert_eq!(z, "/dl/a/M.zip"),
        other => panic!("{:?}", other),
    }
    // three entries: a directory, a file, and one whose name escapes the directory
    assert!(matches!(x.resume(ExtractEvent::Opened(ArchiveOpen::Entries(3))), ExtractStep::InspectEntry(0)));
    assert!(matches!(x.resume(entry("M/", Some("M/"))), ExtractStep::InspectEntry(1)));
    assert!(matches!(x.resume(entry("M/init.lua", Some("M/init.lua"))), ExtractStep::ReadEntryStart(1)));
    assert!(matches!(x.resume(ExtractEvent::Done(Ok(()))), ExtractStep::InspectEntry(2)));
    assert!(matches!(x.resume(entry("../evil", None)), ExtractStep::ReadEntryStart(2)));
    // checked: now the entries are written
    assert!(matches!(x.resume(ExtractEvent::Done(Ok(()))), ExtractStep::InspectEntry(0)));
    match x.resume(entry("M/", Some("M/"))) {
        ExtractStep::WriteEntry { index, path, parent, directory } => {
            assert_eq!(index, 0);
            assert_eq!(path, "/dl/a/M/M/");
            assert_eq!(parent, Some("/dl/a/M".to_string()));
            assert!(directory);
        }
        other => panic!("{:?}", other),
    }
    assert!(matches!(x.resume(ExtractEvent::Written(Ok(()))), ExtractStep::InspectEntry(1)));
    match x.resume(entry("M/init.lua", Some("M/init.lua"))) {
        ExtractStep::WriteEntry { index, path, parent, directory } => {
            assert_eq!(index, 1);
            assert_eq!(path, "/dl/a/M/M/init.lua");
            assert_eq!(parent, Some("/dl/a/M/M".to_string()));
            assert!(!directory);
        }
        other => panic!("{:?}", other),
    }
    assert!(matches!(x.resume(ExtractEvent::Written(Ok(()))), ExtractStep::InspectEntry(2)));
    // the unsafe entry is skipped
    match x.resume(entry("../evil", None)) {
        ExtractStep::Announce(s) => assert_eq!(s.status, "completed"),
        other => panic!("{:?}", other),
    }
    match x.resume(ExtractEvent::Announced(Ok(()))) {
        ExtractStep::Finish { report, remove_dir, result } => {
            assert!(report.is_none() && remove_dir.is_none());
            assert_eq!(result, Ok(()));
        }
        other => panic!("{:?}", other),
    }
}

fn to_open(x: &mut Extraction) {
    x.start();
    x.resume(ExtractEvent::Announced(Ok(())));
    x.resume(ExtractEvent::Done(Ok(())));
}

#[test]
fn extraction_failures_are_reported() {
    let mut x = Extraction::new("z".to_string(), "d".to_string(), "M.zip".to_string(), false);
    x.start();
    x.resume(ExtractEvent::Announced(Ok(())));
    match x.resume(ExtractEvent::Done(Err("denied".to_string()))) {
        ExtractStep::Finish { report, result, .. } => {
            let r = report.unwrap();
            assert_eq!(r.mod_name, "M.zip");
            assert_eq!(r.error, "Failed to create extraction directory: denied");
            assert_eq!(result, Err("Failed to create extraction directory: denied".to_string()));
        }
        other => panic!("{:?}", other),
    }

    let mut x = Extraction::new("z".to_string(), "d".to_string(), "M.zip".to_string(), false);
    to_open(&mut x);
    match x.resume(ExtractEvent::Opened(ArchiveOpen::ArchiveFailed("no central directory".to_string()))) {
        ExtractStep::Finish { result, .. } => assert_eq!(
            result,
            Err("The ZIP file is corrupted or invalid: no central directory".to_string())
        ),
        other => panic!("{:?}", other),
    }

    let mut x = Extraction::new("z".to_string(), "d".to_string(), "M.zip".to_string(), false);
    to_open(&mut x);
    match x.resume(ExtractEvent::Opened(ArchiveOpen::FileFailed("missing".to_string()))) {
        ExtractStep::Finish { result, .. } => assert_eq!(result, Err("Failed to open ZIP file: missing".to_string())),
        other => panic!("{:?}", other),
    }

    let mut x = Extraction::new("z".to_string(), "d".to_string(), "M.zip".to_string(), false);
    to_open(&mut x);
    x.resume(ExtractEvent::Opened(ArchiveOpen::Entries(1)));
    x.resume(entry("a.txt", Some("a.txt")));
    match x.resume(ExtractEvent::Done(Err("early eof".to_string()))) {
        ExtractStep::Finish { result, remove_dir, .. } => {
            assert_eq!(
                result,
                Err("ZIP archive failed verification: Failed to read file 'a.txt': early eof".to_string())
            );
            assert!(remove_dir.is_none());
        }
        other => panic!("{:?}", other),
    }

    let mut x = Extraction::new("z".to_string(), "d".to_string(), "M.zip".to_string(), false);
    to_open(&mut x);
    x.resume(ExtractEvent::Opened(ArchiveOpen::Entries(1)));
    x.resume(entry("a/", Some("a/")));
    x.resume(entry("a/", Some("a/")));
    match x.resume(ExtractEvent::Written(Err(WriteFailure::CreateDirectory("full".to_string())))) {
        ExtractStep::Finish { result, .. } => assert_eq!(result, Err("Failed to create directory: full".to_string())),
        other => panic!("{:?}", other),
    }
}

#[test]
fn empty_archive_completes() {
    let mut x = Extraction::new("z".to_string(), "d".to_string(), "M.zip".to_string(), false);
    to_open(&mut x);
    assert!(matches!(x.resume(ExtractEvent::Opened(ArchiveOpen::Entries(0))), ExtractStep::Announce(_)));
}

#[test]
fn cancelled_extraction_removes_directory() {
    let mut x = Extraction::new("z".to_string(), "d".to_string(), "M.zip".to_string(), true);
    assert!(matches!(x.start(), ExtractStep::CheckCancelled));
    match x.resume(ExtractEvent::Cancelled(true)) {
        ExtractStep::Finish { remove_dir, result, .. } => {
            assert!(remove_dir.is_none());
            assert_eq!(result, Err("Extraction was cancelled".to_string()));
        }
        other => panic!("{:?}", other),
    }

    let mut x = Extraction::new("z".to_string(), "d".to_string(), "M.zip".to_string(), true);
    x.start();
    x.resume(ExtractEvent::Cancelled(false));
    x.resume(ExtractEvent::Announced(Ok(())));
    assert!(matches!(x.resume(ExtractEvent::Done(Ok(()))), ExtractStep::CheckCancelled));
    assert!(matches!(x.resume(ExtractEvent::Cancelled(false)), ExtractStep::OpenArchive(_)));
    assert!(matches!(x.resume(ExtractEvent::Opened(ArchiveOpen::Entries(1))), ExtractStep::CheckCancelled));
    assert!(matches!(x.resume(ExtractEvent::Cancelled(false)), ExtractStep::InspectEntry(0)));
    x.resume(entry("a/", Some("a/")));
    assert!(matches!(x.resume(ExtractEvent::Cancelled(false)), ExtractStep::InspectEntry(0)));
    assert!(matches!(x.resume(entry("a/", Some("a/"))), ExtractStep::WriteEntry { .. }));
    assert!(matches!(x.resume(ExtractEvent::Written(Ok(()))), ExtractStep::CheckCancelled));
    match x.resume(ExtractEvent::Cancelled(true)) {
        ExtractStep::Finish { remove_dir, result, .. } => {
            assert_eq!(remove_dir, Some("d".to_string()));
            assert_eq!(result, Err("Extraction was cancelled".to_string()));
        }
        other => panic!("{:?}", other),
    }
}
