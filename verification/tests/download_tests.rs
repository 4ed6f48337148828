use bzmm::download_queue::{DownloadQueue, MAX_CONCURRENT_DOWNLOADS};
use bzmm::layout::{mod_name_from_filename, temp_file_name, DownloadLayout};
use bzmm::mod_download::{
    download_outcome, is_mod_successfully_downloaded, DownloadFlow, FlowEvent, FlowStep, HeaderRead,
};

#[test]
fn download_outcome_table() {
    assert!(!download_outcome(true, true));
    assert!(!download_outcome(true, false));
    assert!(download_outcome(false, true));
    assert!(!download_outcome(false, false));
}

#[test]
fn nothing_downloaded_in_missing_directory() {
    assert!(!is_mod_successfully_downloaded("/nonexistent-bzmm-dir/abc123", "Some Mod"));
}

#[test]
fn mod_names_and_temp_names() {
    assert_eq!(mod_name_from_filename("Test Mod.zip"), "Test Mod");
    assert_eq!(mod_name_from_filename("Test Mod.zip.zip"), "Test Mod");
    assert_eq!(mod_name_from_filename("Test Mod"), "Test Mod");
    assert_eq!(temp_file_name("Test Mod.zip"), "Test Mod.tmp");
}

#[test]
fn layout_of_a_download() {
    let l = DownloadLayout::new("/dl", "http://example.com/repo.xml", "Test Mod.zip");
    assert_eq!(l.xml_specific_path, "/dl/85899b");
    assert_eq!(l.file_path, "/dl/85899b/Test Mod.zip");
    assert_eq!(l.extract_dir, "/dl/85899b/Test Mod");
    assert_eq!(l.temp_file_path, "/dl/85899b/Test Mod.tmp");
}

fn finish(step: FlowStep) -> bzmm::mod_download::FlowEnd {
    match step {
        FlowStep::Finish(end) => end,
        other => panic!("expected the end, got {:?}", other),
    }
}

#[test]
fn plain_download_runs_to_completion() {
    let mut flow = DownloadFlow::new(
        "http://example.com/mod.zip".to_string(),
        "Test Mod.zip".to_string(),
        "http://example.com/repo.xml".to_string(),
        false,
    );
    assert!(matches!(flow.start(), FlowStep::LoadSettings));
    match flow.resume(FlowEvent::SettingsLoaded(Ok("/dl".to_string()))) {
        FlowStep::EnsureDirectory(d) => assert_eq!(d, "/dl/85899b"),
        other => panic!("{:?}", other),
    }
    match flow.resume(FlowEvent::Finished(Ok(()))) {
        FlowStep::CleanModDirectory(d) => assert_eq!(d, "/dl/85899b/Test Mod"),
        other => panic!("{:?}", other),
    }
    match flow.resume(FlowEvent::Finished(Ok(()))) {
        FlowStep::Download { filename, url, dest } => {
            assert_eq!(filename, "Test Mod.zip");
            assert_eq!(url, "http://example.com/mod.zip");
            assert_eq!(dest, "/dl/85899b/Test Mod.tmp");
        }
        other => panic!("{:?}", other),
    }
    match flow.resume(FlowEvent::Finished(Ok(()))) {
        FlowStep::MoveFile { from, to } => {
            assert_eq!(from, "/dl/85899b/Test Mod.tmp");
            assert_eq!(to, "/dl/85899b/Test Mod.zip");
        }
        other => panic!("{:?}", other),
    }
    assert!(matches!(flow.resume(FlowEvent::Finished(Ok(()))), FlowStep::ReadFileSize(_)));
    assert!(matches!(flow.resume(FlowEvent::FileSize(Ok(4096))), FlowStep::ReadFileHeader(_)));
    match flow.resume(FlowEvent::FileHeader(HeaderRead::Bytes(0x50, 0x4B, 0x03, 0x04))) {
        FlowStep::Extract { zip, dir, filename } => {
            assert_eq!(zip, "/dl/85899b/Test Mod.zip");
            assert_eq!(dir, "/dl/85899b/Test Mod");
            assert_eq!(filename, "Test Mod.zip");
        }
        other => panic!("{:?}", other),
    }
    match flow.resume(FlowEvent::Finished(Ok(()))) {
        FlowStep::RemoveFile(p) => assert_eq!(p, "/dl/85899b/Test Mod.zip"),
        other => panic!("{:?}", other),
    }
    let end = finish(flow.resume(FlowEvent::Finished(Err("busy".to_string()))));
    assert_eq!(end.result, Ok(()));
    assert!(end.report.is_none() && end.remove_file.is_none() && end.remove_dir.is_none());
}

fn to_size_check(flow: &mut DownloadFlow) {
    flow.start();
    flow.resume(FlowEvent::SettingsLoaded(Ok("/dl".to_string())));
    flow.resume(FlowEvent::Finished(Ok(())));
    flow.resume(FlowEvent::Finished(Ok(())));
    flow.resume(FlowEvent::Finished(Ok(())));
    flow.resume(FlowEvent::Finished(Ok(())));
}

fn plain_flow() -> DownloadFlow {
    DownloadFlow::new("u".to_string(), "M.zip".to_string(), "r".to_string(), false)
}

#[test]
fn small_file_reports_server_error() {
    let mut flow = plain_flow();
    to_size_check(&mut flow);
    assert!(matches!(flow.resume(FlowEvent::FileSize(Ok(12))), FlowStep::ReadFileText(_)));
    let end = finish(flow.resume(FlowEvent::FileText(Ok("Not Found".to_string()))));
    assert_eq!(end.result, Err("Server returned error: Not Found".to_string()));
    assert_eq!(end.report, Some("Server returned error: Not Found".to_string()));
    assert!(end.remove_file.unwrap().ends_with("M.zip"));
}

#[test]
fn small_unreadable_file_reports_its_size() {
    let mut flow = plain_flow();
    to_size_check(&mut flow);
    flow.resume(FlowEvent::FileSize(Ok(99)));
    let end = finish(flow.resume(FlowEvent::FileText(Err("invalid utf-8".to_string()))));
    assert_eq!(
        end.result,
        Err("Downloaded file is too small to be a valid ZIP (99 bytes)".to_string())
    );
}

#[test]
fn file_of_exactly_minimum_size_is_checked_for_header() {
    let mut flow = plain_flow();
    to_size_check(&mut flow);
    assert!(matches!(flow.resume(FlowEvent::FileSize(Ok(100))), FlowStep::ReadFileHeader(_)));
    let end = finish(flow.resume(FlowEvent::FileHeader(HeaderRead::Bytes(b'<', b'h', b't', b'm'))));
    assert_eq!(
        end.result,
        Err("Downloaded file is not a valid ZIP archive. File might be corrupted.".to_string())
    );
    assert!(end.report.is_some());
    assert!(end.remove_file.is_some());
}

#[test]
fn header_errors_are_reported() {
    let mut flow = plain_flow();
    to_size_check(&mut flow);
    flow.resume(FlowEvent::FileSize(Ok(500)));
    let end = finish(flow.resume(FlowEvent::FileHeader(HeaderRead::OpenFailed("denied".to_string()))));
    assert_eq!(end.result, Err("Failed to open file for validation: denied".to_string()));
    assert!(end.remove_file.is_none());

    let mut flow = plain_flow();
    to_size_check(&mut flow);
    flow.resume(FlowEvent::FileSize(Ok(500)));
    let end = finish(flow.resume(FlowEvent::FileHeader(HeaderRead::ReadFailed("eof".to_string()))));
    assert_eq!(end.result, Err("Failed to read file header: eof".to_string()));
    assert!(end.remove_file.is_some());

    let mut flow = plain_flow();
    to_size_check(&mut flow);
    let end = finish(flow.resume(FlowEvent::FileSize(Err("gone".to_string()))));
    assert_eq!(end.result, Err("Failed to get file metadata: gone".to_string()));
    assert_eq!(end.report, Some("Failed to get file metadata: gone".to_string()));
}

#[test]
fn failed_transfer_removes_partial_file() {
    let mut flow = plain_flow();
    flow.start();
    flow.resume(FlowEvent::SettingsLoaded(Ok("/dl".to_string())));
    flow.resume(FlowEvent::Finished(Ok(())));
    flow.resume(FlowEvent::Finished(Ok(())));
    let end = finish(flow.resume(FlowEvent::Finished(Err("timeout".to_string()))));
    assert_eq!(end.result, Err("timeout".to_string()));
    assert!(end.remove_file.unwrap().ends_with("M.tmp"));
}

#[test]
fn failed_directory_creation_and_settings() {
    let mut flow = plain_flow();
    flow.start();
    let end = finish(flow.resume(FlowEvent::SettingsLoaded(Err("no settings".to_string()))));
    assert_eq!(end.result, Err("no settings".to_string()));

    let mut flow = plain_flow();
    flow.start();
    flow.resume(FlowEvent::SettingsLoaded(Ok("/dl".to_string())));
    let end = finish(flow.resume(FlowEvent::Finished(Err("read-only".to_string()))));
    assert_eq!(
        end.result,
        Err("Failed to create XML-specific download directory: read-only".to_string())
    );
}

#[test]
fn failed_extraction_removes_archive_and_directory() {
    let mut flow = plain_flow();
    to_size_check(&mut flow);
    flow.resume(FlowEvent::FileSize(Ok(500)));
    flow.resume(FlowEvent::FileHeader(HeaderRead::Bytes(0x50, 0x4B, 0x03, 0x04)));
    let end = finish(flow.resume(FlowEvent::Finished(Err("bad crc".to_string()))));
    assert_eq!(end.result, Err("bad crc".to_string()));
    assert!(end.report.is_none());
    assert!(end.remove_file.unwrap().ends_with("M.zip"));
    assert!(end.remove_dir.unwrap().ends_with("/M"));
}

#[test]
fn cancellable_download_stops_when_cancelled() {
    let cancelled = "Download was cancelled".to_string();
    let mut flow = DownloadFlow::new("u".to_string(), "M.zip".to_string(), "r".to_string(), true);
    assert!(matches!(flow.start(), FlowStep::CheckCancelled));
    let end = finish(flow.resume(FlowEvent::Cancelled(true)));
    assert_eq!(end.result, Err(cancelled.clone()));
    assert!(end.remove_file.is_none());

    let mut flow = DownloadFlow::new("u".to_string(), "M.zip".to_string(), "r".to_string(), true);
    flow.start();
    assert!(matches!(flow.resume(FlowEvent::Cancelled(false)), FlowStep::LoadSettings));
    flow.resume(FlowEvent::SettingsLoaded(Ok("/dl".to_string())));
    assert!(matches!(flow.resume(FlowEvent::Finished(Ok(()))), FlowStep::CheckCancelled));
    assert!(matches!(flow.resume(FlowEvent::Cancelled(false)), FlowStep::CleanModDirectory(_)));
    assert!(matches!(flow.resume(FlowEvent::Finished(Ok(()))), FlowStep::Download { .. }));
    assert!(matches!(flow.resume(FlowEvent::Finished(Ok(()))), FlowStep::CheckCancelled));
    let end = finish(flow.resume(FlowEvent::Cancelled(true)));
    assert_eq!(end.result, Err(cancelled));
    assert!(end.remove_file.unwrap().ends_with("M.tmp"));
}

#[test]
fn cancellable_download_checks_before_extracting() {
    let mut flow = DownloadFlow::new("u".to_string(), "M.zip".to_string(), "r".to_string(), true);
    flow.start();
    flow.resume(FlowEvent::Cancelled(false));
    flow.resume(FlowEvent::SettingsLoaded(Ok("/dl".to_string())));
    flow.resume(FlowEvent::Finished(Ok(())));
    flow.resume(FlowEvent::Cancelled(false));
    flow.resume(FlowEvent::Finished(Ok(())));
    flow.resume(FlowEvent::Finished(Ok(())));
    assert!(matches!(flow.resume(FlowEvent::Cancelled(false)), FlowStep::MoveFile { .. }));
    assert!(matches!(flow.resume(FlowEvent::Finished(Ok(()))), FlowStep::CheckCancelled));
    assert!(matches!(flow.resume(FlowEvent::Cancelled(false)), FlowStep::ReadFileSize(_)));
    flow.resume(FlowEvent::FileSize(Ok(1000)));
    assert!(matches!(
        flow.resume(FlowEvent::FileHeader(HeaderRead::Bytes(0x50, 0x4B, 0x03, 0x04))),
        FlowStep::CheckCancelled
    ));
    let end = finish(flow.resume(FlowEvent::Cancelled(true)));
    assert_eq!(end.result, Err("Download was cancelled".to_string()));
    assert!(end.remove_file.unwrap().ends_with("M.zip"));
}

#[test]
fn flow_accepts_only_the_awaited_answer() {
    let mut flow = plain_flow();
    flow.start();
    assert!(flow.accepts(&FlowEvent::SettingsLoaded(Ok("/dl".to_string()))));
    assert!(!flow.accepts(&FlowEvent::Cancelled(false)));
}

#[test]
fn queue_is_first_in_first_out() {
    let mut q = DownloadQueue::new();
    q.add_download("u1".to_string(), "a.zip".to_string(), "r".to_string());
    q.add_download("u2".to_string(), "b.zip".to_string(), "r".to_string());
    assert_eq!(q.take_next().unwrap().filename, "a.zip");
    assert_eq!(q.take_next().unwrap().filename, "b.zip");
    assert!(q.take_next().is_none());
}

#[test]
fn queue_limits_running_downloads() {
    let mut q = DownloadQueue::new();
    assert_eq!(MAX_CONCURRENT_DOWNLOADS, 2);
    assert!(q.acquire_slot());
    assert!(q.acquire_slot());
    assert!(!q.acquire_slot());
    assert_eq!(q.slots_taken(), 2);
    q.release_slot();
    assert!(q.acquire_slot());
}

#[test]
fn cancel_removes_waiting_and_running_downloads() {
    let mut q = DownloadQueue::new();
    q.add_download("u1".to_string(), "a.zip".to_string(), "r".to_string());
    q.add_download("u2".to_string(), "b.zip".to_string(), "r".to_string());
    q.add_download("u3".to_string(), "a.zip".to_string(), "r".to_string());
    q.add_download("u4".to_string(), "c.zip".to_string(), "r".to_string());
    let running = q.take_next().unwrap();
    assert_eq!(running.url, "u1");
    let outcome = q.cancel_download("a.zip");
    assert!(outcome.was_queued);
    assert!(outcome.was_downloading);
    assert_eq!(q.take_next().unwrap().filename, "b.zip");
    assert_eq!(q.take_next().unwrap().filename, "c.zip");
    let again = q.cancel_download("a.zip");
    assert!(!again.was_queued && !again.was_downloading);
}

#[test]
fn finished_download_is_no_longer_cancellable() {
    let mut q = DownloadQueue::new();
    q.add_download("u1".to_string(), "a.zip".to_string(), "r".to_string());
    q.take_next();
    q.finish_download("a.zip");
    let outcome = q.cancel_download("a.zip");
    assert!(!outcome.was_queued && !outcome.was_downloading);
}

#[test]
fn downloaded_names_once_then_sideloaded() {
    let entries = vec![
        ("A".to_string(), true),
        ("B".to_string(), false),
        ("A".to_string(), true),
        ("C".to_string(), true),
    ];
    let sideloaded = vec!["S".to_string(), "A".to_string()];
    assert_eq!(
        bzmm::handlers::downloaded_mod_names(&entries, &sideloaded),
        vec!["A".to_string(), "C".to_string(), "S".to_string(), "A".to_string()]
    );
    assert!(bzmm::handlers::downloaded_mod_names(&vec![], &vec![]).is_empty());
}
