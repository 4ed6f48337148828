use bzmm::mod_management::{
    choose_mod_dir, disable_early_answer, enable_early_answer, enable_start, find_mod_dir,
    update_enabling_check, update_filename, EnableStart, ManageEvent, ManageFlow, ManageStep,
    Marker, ModResult,
};
use bzmm::settings::{DarkMode, Profile, Settings};
use bzmm::text::{concat_text, contains_text, decimal_string, trim, trim_end_matches};
use bzmm::types::ModError;

#[test]
fn mod_dir_choice() {
    let r = choose_mod_dir("M", "/dl/abc", "/dl/abc/M".to_string(), true, None, false);
    assert_eq!(r.unwrap(), "/dl/abc/M");
    let r = choose_mod_dir("M", "/dl/abc", "/dl/abc/M".to_string(), false, Some("/side/M".to_string()), true);
    assert_eq!(r.unwrap(), "/side/M");
    match choose_mod_dir("M", "/dl/abc", "/dl/abc/M".to_string(), false, Some("/side/M".to_string()), false) {
        Err(ModError::DirectoryStructureError(m)) => assert_eq!(
            m,
            "Could not find mod 'M' in profile-specific download directory (/dl/abc) or sideload directory"
        ),
        other => panic!("{:?}", other),
    }
}

#[test]
fn mod_dir_of_unknown_profile() {
    match find_mod_dir(&Settings::default(), "M", "nobody") {
        Err(ModError::SettingsError(m)) => assert_eq!(m, "Profile 'nobody' not found for finding mod dir"),
        other => panic!("{:?}", other),
    }
}

#[test]
fn enabling_decisions() {
    assert_eq!(enable_start(true, true), EnableStart::AlreadyEnabled);
    assert_eq!(enable_start(false, true), EnableStart::InProgress);
    assert_eq!(enable_start(false, false), EnableStart::Proceed);
    match enable_early_answer(EnableStart::AlreadyEnabled) {
        Some(Ok(r)) => {
            assert!(r.success);
            assert_eq!(r.message, Some("Mod already enabled".to_string()));
        }
        other => panic!("{:?}", other),
    }
    match enable_early_answer(EnableStart::InProgress) {
        Some(Err(ModError::EnablementError(m))) => assert_eq!(m, "Mod is currently being enabled"),
        other => panic!("{:?}", other),
    }
    assert!(enable_early_answer(EnableStart::Proceed).is_none());
}

#[test]
fn disabling_deleting_updating_decisions() {
    let r: ModResult = disable_early_answer(false).unwrap();
    assert_eq!(r.message, Some("Mod already disabled".to_string()));
    assert!(disable_early_answer(true).is_none());
    assert!(update_enabling_check(false).is_ok());
    match update_enabling_check(true) {
        Err(ModError::EnablementError(m)) => assert_eq!(m, "Cannot update mod while it is being enabled"),
        other => panic!("{:?}", other),
    }
    assert_eq!(update_filename("Test Mod"), "Test Mod.zip");
    assert_eq!(ModResult::succeeded(None).message, None);
}

#[test]
fn error_messages() {
    assert_eq!(ModError::IoError("x".to_string()).message(), "IO error: x");
    assert_eq!(ModError::SettingsError("y".to_string()).message(), "Settings error: y");
    assert_eq!(ModError::DownloadError("z".to_string()).message(), "Download error: z");
}

#[test]
fn text_operations() {
    assert_eq!(trim("  a b \n\t"), "a b");
    assert_eq!(trim("\u{3000}x\u{a0}"), "x");
    assert_eq!(trim("   "), "");
    assert_eq!(trim_end_matches("a.zip.zip", ".zip"), "a");
    assert_eq!(trim_end_matches("a.zip", ""), "a.zip");
    assert_eq!(trim_end_matches("aaa", "aa"), "a");
    assert!(contains_text("Using cached data", "cached"));
    assert!(!contains_text("Using Cache", "cached"));
    assert!(contains_text("abc", ""));
    assert_eq!(decimal_string(0), "0");
    assert_eq!(decimal_string(18446744073709551615), "18446744073709551615");
    assert_eq!(concat_text("a", "b"), "ab");
}

fn flow_settings() -> Settings {
    Settings {
        dark_mode: DarkMode::System,
        download_path: "/nonexistent-bzmm-downloads".to_string(),
        sideload_path: "/".to_string(),
        profiles: vec![Profile {
            name: "P".to_string(),
            dcs_path: "/games/dcs".to_string(),
            repo_url: "http://example.com/repo.xml".to_string(),
        }],
        cached_xml_paths: vec![],
    }
}

fn answer(flow: &mut ManageFlow, event: ManageEvent) -> ManageStep {
    assert!(flow.accepts(&event));
    flow.resume(event)
}

fn expect_finish(step: ManageStep) -> Result<ModResult, ModError> {
    match step {
        ManageStep::Finish(r) => r,
        other => panic!("{:?}", other),
    }
}

#[test]
fn enable_rolls_back_failed_processing() {
    let (mut flow, step) = ManageFlow::enable_mod("tmp".to_string(), "P".to_string());
    assert!(matches!(step, ManageStep::LoadSettings));
    match answer(&mut flow, ManageEvent::SettingsLoaded(Ok(flow_settings()))) {
        ManageStep::CheckExists(d) => assert_eq!(d, "/games/dcs"),
        other => panic!("{:?}", other),
    }
    match answer(&mut flow, ManageEvent::Exists(true)) {
        ManageStep::VerifyStructure(d) => assert_eq!(d, "/tmp"),
        other => panic!("{:?}", other),
    }
    match answer(&mut flow, ManageEvent::Checked(Ok(()))) {
        ManageStep::CheckMarkers { mod_dir, profile_name } => {
            assert_eq!(mod_dir, "/tmp");
            assert_eq!(profile_name, "P");
        }
        other => panic!("{:?}", other),
    }
    match answer(&mut flow, ManageEvent::Markers { enabled: false, enabling: false }) {
        ManageStep::WriteMarker { marker, .. } => assert_eq!(marker, Marker::Enabling),
        other => panic!("{:?}", other),
    }
    match answer(&mut flow, ManageEvent::Written(Ok(()))) {
        ManageStep::ReadVersion(d) => assert_eq!(d, "/tmp"),
        other => panic!("{:?}", other),
    }
    match answer(&mut flow, ManageEvent::Version(Ok("1.0".to_string()))) {
        ManageStep::ProcessDirs { source, dcs_dir, mod_name, version, remove } => {
            assert_eq!(source, "/tmp/tmp");
            assert_eq!(dcs_dir, "/games/dcs");
            assert_eq!(mod_name, "tmp");
            assert_eq!(version, "1.0");
            assert!(!remove);
        }
        other => panic!("{:?}", other),
    }
    match answer(&mut flow, ManageEvent::Checked(Err(ModError::IoError("boom".to_string())))) {
        ManageStep::ProcessDirs { remove, .. } => assert!(remove),
        other => panic!("{:?}", other),
    }
    match answer(&mut flow, ManageEvent::Checked(Ok(()))) {
        ManageStep::RemoveMarker { marker, .. } => assert_eq!(marker, Marker::Enabling),
        other => panic!("{:?}", other),
    }
    match expect_finish(answer(&mut flow, ManageEvent::Written(Ok(())))) {
        Err(ModError::IoError(m)) => assert_eq!(m, "boom"),
        other => panic!("{:?}", other),
    }
}

#[test]
fn enable_writes_enabled_marker_after_success() {
    let (mut flow, _) = ManageFlow::enable_mod("tmp".to_string(), "P".to_string());
    answer(&mut flow, ManageEvent::SettingsLoaded(Ok(flow_settings())));
    answer(&mut flow, ManageEvent::Exists(true));
    answer(&mut flow, ManageEvent::Checked(Ok(())));
    answer(&mut flow, ManageEvent::Markers { enabled: false, enabling: false });
    answer(&mut flow, ManageEvent::Written(Ok(())));
    answer(&mut flow, ManageEvent::Version(Ok("2".to_string())));
    match answer(&mut flow, ManageEvent::Checked(Ok(()))) {
        ManageStep::RemoveMarker { marker, .. } => assert_eq!(marker, Marker::Enabling),
        other => panic!("{:?}", other),
    }
    match answer(&mut flow, ManageEvent::Written(Err("busy".to_string()))) {
        ManageStep::WriteMarker { marker, .. } => assert_eq!(marker, Marker::Enabled),
        other => panic!("{:?}", other),
    }
    let r = expect_finish(answer(&mut flow, ManageEvent::Written(Ok(())))).unwrap();
    assert!(r.success);
    assert_eq!(r.message, None);
}

#[test]
fn enable_early_ends() {
    let (mut flow, _) = ManageFlow::enable_mod("tmp".to_string(), "nobody".to_string());
    match expect_finish(answer(&mut flow, ManageEvent::SettingsLoaded(Ok(flow_settings())))) {
        Err(ModError::SettingsError(m)) => assert_eq!(m, "Profile not found"),
        other => panic!("{:?}", other),
    }
    let (mut flow, _) = ManageFlow::enable_mod("tmp".to_string(), "P".to_string());
    answer(&mut flow, ManageEvent::SettingsLoaded(Ok(flow_settings())));
    match expect_finish(answer(&mut flow, ManageEvent::Exists(false))) {
        Err(ModError::DirectoryStructureError(m)) => assert_eq!(m, "DCS path does not exist"),
        other => panic!("{:?}", other),
    }
    let (mut flow, _) = ManageFlow::enable_mod("tmp".to_string(), "P".to_string());
    answer(&mut flow, ManageEvent::SettingsLoaded(Ok(flow_settings())));
    answer(&mut flow, ManageEvent::Exists(true));
    answer(&mut flow, ManageEvent::Checked(Ok(())));
    let r = expect_finish(answer(&mut flow, ManageEvent::Markers { enabled: true, enabling: true })).unwrap();
    assert_eq!(r.message, Some("Mod already enabled".to_string()));
    let (mut flow, _) = ManageFlow::enable_mod("tmp".to_string(), "P".to_string());
    match expect_finish(answer(&mut flow, ManageEvent::SettingsLoaded(Err("unreadable".to_string())))) {
        Err(ModError::SettingsError(m)) => assert_eq!(m, "unreadable"),
        other => panic!("{:?}", other),
    }
}

#[test]
fn disable_takes_files_out() {
    let (mut flow, _) = ManageFlow::disable_mod("tmp".to_string(), "P".to_string());
    match answer(&mut flow, ManageEvent::SettingsLoaded(Ok(flow_settings()))) {
        ManageStep::VerifyStructure(d) => assert_eq!(d, "/tmp"),
        other => panic!("{:?}", other),
    }
    answer(&mut flow, ManageEvent::Checked(Ok(())));
    answer(&mut flow, ManageEvent::Markers { enabled: true, enabling: false });
    match answer(&mut flow, ManageEvent::Version(Ok("3".to_string()))) {
        ManageStep::ProcessDirs { remove, version, .. } => {
            assert!(remove);
            assert_eq!(version, "3");
        }
        other => panic!("{:?}", other),
    }
    match answer(&mut flow, ManageEvent::Checked(Ok(()))) {
        ManageStep::RemoveMarker { marker, .. } => assert_eq!(marker, Marker::Enabled),
        other => panic!("{:?}", other),
    }
    match expect_finish(answer(&mut flow, ManageEvent::Written(Err("locked".to_string())))) {
        Err(ModError::IoError(m)) => assert_eq!(m, "locked"),
        other => panic!("{:?}", other),
    }
    let (mut flow, _) = ManageFlow::disable_mod("tmp".to_string(), "P".to_string());
    answer(&mut flow, ManageEvent::SettingsLoaded(Ok(flow_settings())));
    answer(&mut flow, ManageEvent::Checked(Ok(())));
    let r = expect_finish(answer(&mut flow, ManageEvent::Markers { enabled: false, enabling: true })).unwrap();
    assert_eq!(r.message, Some("Mod already disabled".to_string()));
}

#[test]
fn delete_refuses_sideloaded_and_disables_first() {
    let (mut flow, _) = ManageFlow::delete_mod("tmp".to_string(), "P".to_string());
    match answer(&mut flow, ManageEvent::SettingsLoaded(Ok(flow_settings()))) {
        ManageStep::CheckExists(d) => assert_eq!(d, "/tmp"),
        other => panic!("{:?}", other),
    }
    match expect_finish(answer(&mut flow, ManageEvent::Exists(true))) {
        Err(ModError::EnablementError(m)) => assert_eq!(m, "Cannot delete sideloaded mods"),
        other => panic!("{:?}", other),
    }
    let (mut flow, _) = ManageFlow::delete_mod("tmp".to_string(), "P".to_string());
    answer(&mut flow, ManageEvent::SettingsLoaded(Ok(flow_settings())));
    match answer(&mut flow, ManageEvent::Exists(false)) {
        ManageStep::CheckMarkers { mod_dir, .. } => assert_eq!(mod_dir, "/tmp"),
        other => panic!("{:?}", other),
    }
    match answer(&mut flow, ManageEvent::Markers { enabled: true, enabling: false }) {
        ManageStep::Disable { mod_name, profile_name } => {
            assert_eq!(mod_name, "tmp");
            assert_eq!(profile_name, "P");
        }
        other => panic!("{:?}", other),
    }
    match answer(&mut flow, ManageEvent::CommandDone(Ok(ModResult::succeeded(None)))) {
        ManageStep::RemoveDirectory(d) => assert_eq!(d, "/tmp"),
        other => panic!("{:?}", other),
    }
    let r = expect_finish(answer(&mut flow, ManageEvent::Written(Ok(())))).unwrap();
    assert_eq!(r.message, Some("Mod deleted successfully".to_string()));
}

#[test]
fn update_reenables_after_failed_download() {
    let (mut flow, _) =
        ManageFlow::update_mod("tmp".to_string(), "P".to_string(), "http://example.com/tmp.zip".to_string());
    answer(&mut flow, ManageEvent::SettingsLoaded(Ok(flow_settings())));
    answer(&mut flow, ManageEvent::Exists(false));
    match answer(&mut flow, ManageEvent::Markers { enabled: true, enabling: false }) {
        ManageStep::Disable { .. } => {}
        other => panic!("{:?}", other),
    }
    match answer(&mut flow, ManageEvent::CommandDone(Ok(ModResult::succeeded(None)))) {
        ManageStep::Download { url, filename, repo_url } => {
            assert_eq!(url, "http://example.com/tmp.zip");
            assert_eq!(filename, "tmp.zip");
            assert_eq!(repo_url, "http://example.com/repo.xml");
        }
        other => panic!("{:?}", other),
    }
    match answer(&mut flow, ManageEvent::Downloaded(Err("offline".to_string()))) {
        ManageStep::Enable { mod_name, .. } => assert_eq!(mod_name, "tmp"),
        other => panic!("{:?}", other),
    }
    match expect_finish(answer(&mut flow, ManageEvent::CommandDone(Ok(ModResult::succeeded(None))))) {
        Err(ModError::DownloadError(m)) => assert_eq!(m, "offline"),
        other => panic!("{:?}", other),
    }
}

#[test]
fn update_refused_while_enabling() {
    let (mut flow, _) =
        ManageFlow::update_mod("tmp".to_string(), "P".to_string(), "http://example.com/tmp.zip".to_string());
    answer(&mut flow, ManageEvent::SettingsLoaded(Ok(flow_settings())));
    answer(&mut flow, ManageEvent::Exists(false));
    match expect_finish(answer(&mut flow, ManageEvent::Markers { enabled: false, enabling: true })) {
        Err(ModError::EnablementError(m)) => assert_eq!(m, "Cannot update mod while it is being enabled"),
        other => panic!("{:?}", other),
    }
    let (mut flow, _) =
        ManageFlow::update_mod("tmp".to_string(), "P".to_string(), "http://example.com/tmp.zip".to_string());
    answer(&mut flow, ManageEvent::SettingsLoaded(Ok(flow_settings())));
    answer(&mut flow, ManageEvent::Exists(false));
    match answer(&mut flow, ManageEvent::Markers { enabled: false, enabling: false }) {
        ManageStep::Download { filename, .. } => assert_eq!(filename, "tmp.zip"),
        other => panic!("{:?}", other),
    }
    let r = expect_finish(answer(&mut flow, ManageEvent::Downloaded(Ok(())))).unwrap();
    assert_eq!(r.message, Some("Mod updated successfully".to_string()));
    assert!(!flow.accepts(&ManageEvent::Downloaded(Ok(()))));
}
