use bzmm::handlers::{
    active_mod_names, add_downloaded, append_local_categories, cached_listing_path, enabled_mods_dir,
    listing_note, listing_url, profile_listing_url, sort_categories,
};
use bzmm::local_mods::{select_deprecated, LocalSource};
use bzmm::mod_listing::{ListingEvent, ListingFlow, ListingStep};
use bzmm::settings::{Profile, Settings};
use bzmm::types::{Category, Mod, ModsFile};

fn a_mod(name: &str, version: &str) -> Mod {
    Mod {
        name: name.to_string(),
        version: version.to_string(),
        url: None,
        new_version: None,
        description: String::new(),
    }
}

fn category(name: &str, order: i32, mods: Vec<Mod>) -> Category {
    Category { name: name.to_string(), sort_order: order, mods }
}

fn settings_with(download: &str, sideload: &str) -> Settings {
    let mut s = Settings::default();
    s.download_path = download.to_string();
    s.sideload_path = sideload.to_string();
    s.store_profile(0, Profile {
        name: "main".to_string(),
        dcs_path: "/dcs".to_string(),
        repo_url: "http://example.com/repo.xml/".to_string(),
    });
    s
}

#[test]
fn categories_sort_stably_by_placement() {
    let cats = vec![
        category("c", 3, vec![]),
        category("a1", 1, vec![]),
        category("b", 2, vec![]),
        category("a2", 1, vec![]),
    ];
    let sorted = sort_categories(cats);
    let names: Vec<&str> = sorted.iter().map(|c| c.name.as_str()).collect();
    assert_eq!(names, vec!["a1", "a2", "b", "c"]);
}

#[test]
fn listing_url_drops_trailing_slashes() {
    assert_eq!(listing_url("http://example.com/repo.xml//"), "http://example.com/repo.xml");
    assert_eq!(listing_url("http://example.com/repo.xml"), "http://example.com/repo.xml");
}

#[test]
fn out_of_bounds_profile_gives_empty_view() {
    let s = settings_with("/dl", "");
    match profile_listing_url(&s, 3) {
        Err(r) => {
            assert!(r.categories.is_empty());
            assert_eq!(r.error, Some("Profile index out of bounds".to_string()));
        }
        Ok(_) => panic!("expected the empty view"),
    }
    assert_eq!(profile_listing_url(&s, 0).ok(), Some("http://example.com/repo.xml".to_string()));
}

#[test]
fn notes_about_the_cache() {
    assert_eq!(listing_note(None, false), None);
    assert_eq!(listing_note(Some("x".to_string()), false), Some("x".to_string()));
    assert_eq!(
        listing_note(Some("Failed to load repository XML: offline".to_string()), true),
        Some("Failed to load repository XML: offline. Using cached XML file.".to_string())
    );
    assert_eq!(
        listing_note(Some("could not read cached file".to_string()), true),
        Some("could not read cached file".to_string())
    );
    assert_eq!(
        listing_note(None, true),
        Some("Using cached repository data. Could not connect to repository.".to_string())
    );
}

#[test]
fn recorded_cache_path_is_preferred() {
    let mut s = settings_with("/dl", "");
    assert_eq!(cached_listing_path(&s, 0, Some("/default".to_string())), Some("/default".to_string()));
    s.cached_xml_paths = vec!["".to_string()];
    assert_eq!(cached_listing_path(&s, 0, None), None);
    s.cached_xml_paths = vec!["/cache/a.xml".to_string()];
    assert_eq!(cached_listing_path(&s, 0, None), Some("/cache/a.xml".to_string()));
}

#[test]
fn local_categories_are_appended_after_the_listing() {
    let mut cats = vec![category("Essential", 4, vec![a_mod("A", "1")])];
    append_local_categories(
        &mut cats,
        Some(Category::new_deprecated(vec![])),
        Some(Category::new_sideloaded(vec![a_mod("S", "1")])),
    );
    assert_eq!(cats.len(), 2);
    assert_eq!(cats[1].name, "Sideloaded");
    assert_eq!(cats[1].sort_order, 5);

    let mut none: Vec<Category> = vec![];
    append_local_categories(&mut none, None, Some(Category::new_sideloaded(vec![a_mod("S", "1")])));
    assert_eq!(none[0].sort_order, 0);
}

#[test]
fn downloaded_names_are_listed_once() {
    let mut names = vec![];
    add_downloaded(&mut names, "A");
    add_downloaded(&mut names, "B");
    add_downloaded(&mut names, "A");
    assert_eq!(names, vec!["A".to_string(), "B".to_string()]);
}

#[test]
fn active_names_and_deprecated_selection() {
    let cats = vec![category("x", 1, vec![a_mod("A", "1"), a_mod("B", "1")]), category("y", 2, vec![a_mod("C", "1")])];
    let active = active_mod_names(&cats);
    assert_eq!(active, vec!["A".to_string(), "B".to_string(), "C".to_string()]);
    let dirs = vec!["A".to_string(), "Old".to_string(), "C".to_string(), "Older".to_string()];
    assert_eq!(select_deprecated(&dirs, &active), vec!["Old".to_string(), "Older".to_string()]);
}

#[test]
fn local_mod_descriptions() {
    let m = Mod::from_local_dir(LocalSource::Deprecated, "Old".to_string(), Some(" 2.0\n".to_string()), None);
    assert_eq!(m.version, "2.0");
    assert_eq!(m.description, "Deprecated mod: Old");
    assert_eq!(m.url, None);
    let m = Mod::from_local_dir(LocalSource::Sideloaded, "Mine".to_string(), None, Some("  My mod \n".to_string()));
    assert_eq!(m.version, "Unknown");
    assert_eq!(m.description, "My mod");
    let m = Mod::from_local_dir(LocalSource::Sideloaded, "Mine ".to_string(), None, None);
    assert_eq!(m.description, "Sideloaded mod: Mine");
}

#[test]
fn enabled_mods_directory_of_profile() {
    let s = settings_with("/dl", "");
    assert_eq!(enabled_mods_dir(&s, "other"), Err("Profile 'other' not found".to_string()));
    // the profile's repository URL is hashed as stored, trailing slash included
    assert_eq!(enabled_mods_dir(&s, "main"), Ok(format!("/dl/{}", bzmm::hashing::repo_hash("http://example.com/repo.xml/"))));
}

#[test]
fn listing_view_from_repository() {
    let s = settings_with("/dl", "/side");
    let (mut flow, step) = ListingFlow::new(s, 0);
    match step {
        ListingStep::Fetch(u) => assert_eq!(u, "http://example.com/repo.xml"),
        other => panic!("{:?}", other),
    }
    let listing = ModsFile {
        categories: vec![
            category("Later", 2, vec![a_mod("B", "1.0")]),
            category("First", 1, vec![a_mod("A", "2.0")]),
        ],
    };
    // the profile's stored URL has a trailing slash, so no profile matches the listing URL
    let step = flow.resume(ListingEvent::Fetched(Ok((listing, Some("/cache/repo.xml".to_string())))));
    let dirs = match step {
        ListingStep::ReadLocalVersions(d) => d,
        other => panic!("{:?}", other),
    };
    assert_eq!(dirs[0], vec!["/dl/85899b/B".to_string()]);
    assert_eq!(dirs[1], vec!["/dl/85899b/A".to_string()]);
    let step = flow.resume(ListingEvent::LocalVersions(vec![vec![Some("0.9".to_string())], vec![None]]));
    match step {
        ListingStep::ScanDeprecated { dir, active } => {
            assert_eq!(dir, "/dl/85899b");
            assert_eq!(active, vec!["A".to_string(), "B".to_string()]);
        }
        other => panic!("{:?}", other),
    }
    let step = flow.resume(ListingEvent::Scanned(Some(Category::new_deprecated(vec![a_mod("Old", "1")]))));
    assert!(matches!(step, ListingStep::ScanSideload(ref p) if p == "/side"));
    let step = flow.resume(ListingEvent::Scanned(Some(Category::new_sideloaded(vec![]))));
    match step {
        ListingStep::Finish(r) => {
            let names: Vec<&str> = r.categories.iter().map(|c| c.name.as_str()).collect();
            assert_eq!(names, vec!["First", "Later", "Deprecated"]);
            assert_eq!(r.categories[1].mods[0].version, "0.9");
            assert_eq!(r.categories[1].mods[0].new_version, Some("1.0".to_string()));
            assert_eq!(r.error, None);
        }
        other => panic!("{:?}", other),
    }
}

#[test]
fn listing_view_saves_cache_path_of_matching_profile() {
    let mut s = settings_with("/dl", "");
    s.profiles[0].repo_url = "http://example.com/repo.xml".to_string();
    let (mut flow, _) = ListingFlow::new(s, 0);
    let listing = ModsFile { categories: vec![] };
    match flow.resume(ListingEvent::Fetched(Ok((listing, Some("/cache/repo.xml".to_string()))))) {
        ListingStep::SaveSettings(saved) => assert_eq!(saved.cached_xml_paths, vec!["/cache/repo.xml".to_string()]),
        other => panic!("{:?}", other),
    }
    assert!(matches!(flow.resume(ListingEvent::Acknowledged), ListingStep::ReadLocalVersions(_)));
}

#[test]
fn listing_view_falls_back_to_cache() {
    let s = settings_with("", "");
    let (mut flow, _) = ListingFlow::new(s, 0);
    match flow.resume(ListingEvent::Fetched(Err("offline".to_string()))) {
        ListingStep::LocateCache(u) => assert_eq!(u, "http://example.com/repo.xml"),
        other => panic!("{:?}", other),
    }
    assert!(matches!(flow.resume(ListingEvent::CachePath(Some("/c.xml".to_string()))), ListingStep::LoadCached(_)));
    let cached = ModsFile { categories: vec![category("Only", 1, vec![a_mod("A", "1")])] };
    assert!(matches!(flow.resume(ListingEvent::CachedListing(Ok(cached))), ListingStep::ReadLocalVersions(_)));
    match flow.resume(ListingEvent::LocalVersions(vec![])) {
        ListingStep::Finish(r) => {
            assert_eq!(r.categories.len(), 1);
            assert_eq!(
                r.error,
                Some("Failed to load repository XML: offline. Using cached XML file.".to_string())
            );
        }
        other => panic!("{:?}", other),
    }
}

#[test]
fn listing_view_without_cache() {
    let s = settings_with("", "");
    let (mut flow, _) = ListingFlow::new(s, 0);
    flow.resume(ListingEvent::Fetched(Err("offline".to_string())));
    match flow.resume(ListingEvent::CachePath(None)) {
        ListingStep::Finish(r) => {
            assert!(r.categories.is_empty());
            assert_eq!(
                r.error,
                Some("Failed to load repository XML: offline. No cached version available.".to_string())
            );
        }
        other => panic!("{:?}", other),
    }
    let (mut flow, _) = ListingFlow::new(settings_with("", ""), 0);
    flow.resume(ListingEvent::Fetched(Err("offline".to_string())));
    flow.resume(ListingEvent::CachePath(Some("/c.xml".to_string())));
    match flow.resume(ListingEvent::CachedListing(Err("missing".to_string()))) {
        ListingStep::Finish(r) => assert_eq!(
            r.error,
            Some("Failed to load repository XML and could not read cache: offline".to_string())
        ),
        other => panic!("{:?}", other),
    }
}

#[test]
fn listing_view_of_unknown_profile() {
    let (_, step) = ListingFlow::new(Settings::default(), 0);
    match step {
        ListingStep::Finish(r) => {
            assert!(r.categories.is_empty());
            assert_eq!(r.error, Some("Profile index out of bounds".to_string()));
        }
        other => panic!("{:?}", other),
    }
}

#[test]
fn listing_view_without_cache_still_scans_local_mods() {
    let (mut flow, _) = ListingFlow::new(settings_with("/dl", "/side"), 0);
    flow.resume(ListingEvent::Fetched(Err("offline".to_string())));
    match flow.resume(ListingEvent::CachePath(None)) {
        ListingStep::ScanDeprecated { active, .. } => assert!(active.is_empty()),
        other => panic!("{:?}", other),
    }
    let old = Category::new_deprecated(vec![a_mod("Old", "1")]);
    match flow.resume(ListingEvent::Scanned(Some(old))) {
        ListingStep::ScanSideload(p) => assert_eq!(p, "/side"),
        other => panic!("{:?}", other),
    }
    let side = Category::new_sideloaded(vec![a_mod("Mine", "2")]);
    match flow.resume(ListingEvent::Scanned(Some(side))) {
        ListingStep::Finish(r) => {
            assert_eq!(r.categories.len(), 2);
            assert_eq!(r.categories[0].mods[0].name, "Old");
            assert_eq!(r.categories[1].mods[0].name, "Mine");
            assert_eq!(r.categories[1].sort_order, r.categories[0].sort_order + 1);
            assert_eq!(
                r.error,
                Some("Failed to load repository XML: offline. No cached version available.".to_string())
            );
        }
        other => panic!("{:?}", other),
    }
}
