use bzmm::settings::{DarkMode, Profile, Settings, SettingsUpdate};
use bzmm::state::AppState;
use bzmm::xml_cache::{update_cache_path_in_settings, XmlCache};
use std::collections::hash_map::DefaultHasher;
use std::hash::{Hash, Hasher};

fn profile(name: &str, repo: &str) -> Profile {
    Profile { name: name.to_string(), dcs_path: format!("/dcs/{}", name), repo_url: repo.to_string() }
}

#[test]
fn default_settings_are_empty() {
    let s = Settings::default();
    assert_eq!(s.dark_mode, DarkMode::System);
    assert_eq!(s.download_path, "");
    assert_eq!(s.sideload_path, "");
    assert!(s.profiles.is_empty());
    assert!(s.cached_xml_paths.is_empty());
}

#[test]
fn apply_update_sets_known_keys_only() {
    let mut s = Settings::default();
    let r = s.apply_update(SettingsUpdate { key: "download_path".to_string(), value: "/dl".to_string() });
    assert!(r.is_ok());
    assert_eq!(s.download_path, "/dl");
    let r = s.apply_update(SettingsUpdate { key: "sideload_path".to_string(), value: "/side".to_string() });
    assert!(r.is_ok());
    assert_eq!(s.sideload_path, "/side");
    let r = s.apply_update(SettingsUpdate { key: "dark_mode".to_string(), value: "Dark".to_string() });
    assert_eq!(r, Err("Invalid settings key".to_string()));
    assert_eq!(s.download_path, "/dl");
    assert_eq!(s.sideload_path, "/side");
}

#[test]
fn store_profile_appends_or_replaces() {
    let mut s = Settings::default();
    s.store_profile(5, profile("a", "http://a"));
    assert_eq!(s.profiles.len(), 1);
    assert_eq!(s.profiles[0].name, "a");
    s.store_profile(1, profile("b", "http://b"));
    assert_eq!(s.profiles.len(), 2);
    s.store_profile(0, profile("c", "http://c"));
    assert_eq!(s.profiles.len(), 2);
    assert_eq!(s.profiles[0].name, "c");
    assert_eq!(s.profiles[1].name, "b");
}

#[test]
fn store_new_then_remove_restores_profiles() {
    let mut s = Settings::default();
    s.store_profile(0, profile("a", "http://a"));
    s.store_profile(9, profile("b", "http://b"));
    assert!(s.remove_profile(1).is_ok());
    assert_eq!(s.profiles.len(), 1);
    assert_eq!(s.profiles[0].name, "a");
}

#[test]
fn remove_profile_out_of_bounds_is_refused() {
    let mut s = Settings::default();
    s.store_profile(0, profile("a", "http://a"));
    assert_eq!(s.remove_profile(1), Err("Profile index out of bounds".to_string()));
    assert_eq!(s.profiles.len(), 1);
    assert_eq!(s.remove_profile(0), Ok(()));
    assert!(s.profiles.is_empty());
}

#[test]
fn profile_lookup_finds_first_match() {
    let mut s = Settings::default();
    s.store_profile(0, profile("a", "http://r"));
    s.store_profile(1, profile("b", "http://r"));
    s.store_profile(2, profile("a", "http://q"));
    assert_eq!(s.profile_index_by_name("a"), Some(0));
    assert_eq!(s.profile_index_by_name("b"), Some(1));
    assert_eq!(s.profile_index_by_name("z"), None);
    assert_eq!(s.profile_index_by_repo_url("http://r"), Some(0));
    assert_eq!(s.profile_index_by_repo_url("http://q"), Some(2));
    assert_eq!(s.profile_index_by_repo_url("http://none"), None);
}

#[test]
fn cache_filename_uses_default_hasher() {
    let url = "http://example.com/repo.xml";
    let mut hasher = DefaultHasher::new();
    url.hash(&mut hasher);
    let expected = format!("repo_{}.xml", hasher.finish());
    assert_eq!(XmlCache::generate_cache_filename(url), expected);
    assert_eq!(XmlCache::generate_cache_filename(url), XmlCache::generate_cache_filename(url));
    assert_ne!(
        XmlCache::generate_cache_filename(url),
        XmlCache::generate_cache_filename("http://another.com/repo.xml")
    );
}

#[test]
fn cache_path_joins_cache_dir() {
    let url = "http://example.com/repo.xml";
    assert_eq!(XmlCache::get_cache_path(None, url), None);
    let expected = format!("/cache/xml_cache/{}", XmlCache::generate_cache_filename(url));
    assert_eq!(XmlCache::get_cache_path(Some("/cache/xml_cache"), url), Some(expected));
}

#[test]
fn cache_path_recorded_for_first_matching_profile() {
    let mut s = Settings::default();
    s.store_profile(0, profile("a", "http://a"));
    s.store_profile(1, profile("b", "http://b"));
    s.store_profile(2, profile("c", "http://c"));
    assert!(update_cache_path_in_settings(&mut s, "http://c", "/cache/c.xml"));
    assert_eq!(s.cached_xml_paths, vec!["".to_string(), "".to_string(), "/cache/c.xml".to_string()]);
    assert!(update_cache_path_in_settings(&mut s, "http://a", "/cache/a.xml"));
    assert_eq!(s.cached_xml_paths[0], "/cache/a.xml");
    assert_eq!(s.cached_xml_paths.len(), 3);
    assert!(!update_cache_path_in_settings(&mut s, "http://none", "/cache/n.xml"));
    assert_eq!(s.cached_xml_paths.len(), 3);
}

#[test]
fn app_state_holds_its_settings() {
    let mut settings = Settings::default();
    settings.sideload_path = "./my_sideloads".to_string();
    let state = AppState::new(settings);
    assert_eq!(state.settings.read().unwrap().sideload_path, "./my_sideloads");
    let state = AppState::default();
    assert_eq!(state.settings.read().unwrap().download_path, "");
}
