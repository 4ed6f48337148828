use bzmm::hashing::repo_hash;
use bzmm::layout::{repo_download_dir, version_file};
use bzmm::parser::ModParser;
use bzmm::types::{Category, Mod, ModsFile};

fn listing(version: &str, url: &str) -> ModsFile {
    ModsFile {
        categories: vec![Category {
            name: "Essential".to_string(),
            sort_order: 1,
            mods: vec![Mod {
                name: "Test Mod".to_string(),
                version: version.to_string(),
                url: Some(url.to_string()),
                new_version: None,
                description: "Test description".to_string(),
            }],
        }],
    }
}

#[test]
fn test_check_for_updates() {
    let repo_url = "http://example.com/repo.xml";
    let other_repo_url = "http://another.com/repo.xml";
    // Each repository has its own download directory.
    assert_ne!(repo_hash(repo_url), repo_hash(other_repo_url));
    assert_ne!(
        repo_download_dir("/downloads", repo_url),
        repo_download_dir("/downloads", other_repo_url)
    );

    // The first repository's directory holds version 1.0.0 of "Test Mod".
    let mods = listing("1.0.1", "http://example.com/mod.zip");
    let local = vec![vec![Some("1.0.0".to_string())]];
    let result = ModParser::check_for_updates(&mods, &local).unwrap();
    let updated_mod = &result.categories[0].mods[0];
    assert_eq!(updated_mod.version, "1.0.0");
    assert_eq!(updated_mod.new_version, Some("1.0.1".to_string()));

    // The second repository's directory holds version 0.9.0 of a mod of the same name.
    let mods_for_other_repo = listing("1.0.0", "http://another.com/mod.zip");
    let local_other = vec![vec![Some("0.9.0".to_string())]];
    let result_other = ModParser::check_for_updates(&mods_for_other_repo, &local_other).unwrap();
    let updated_mod_other = &result_other.categories[0].mods[0];
    assert_eq!(updated_mod_other.version, "0.9.0");
    assert_eq!(updated_mod_other.new_version, Some("1.0.0".to_string()));
}

#[test]
fn check_for_updates_leaves_matching_and_missing_mods() {
    let mods = listing("1.0.0", "http://example.com/mod.zip");
    // Same version, with surrounding white space in the version file.
    let same = vec![vec![Some("  1.0.0\n".to_string())]];
    let r = ModParser::check_for_updates(&mods, &same).unwrap();
    assert_eq!(r.categories[0].mods[0].version, "1.0.0");
    assert_eq!(r.categories[0].mods[0].new_version, None);
    // Not installed from this repository.
    let none: Vec<Vec<Option<String>>> = vec![vec![None]];
    let r = ModParser::check_for_updates(&mods, &none).unwrap();
    assert_eq!(r.categories[0].mods[0].version, "1.0.0");
    assert_eq!(r.categories[0].mods[0].new_version, None);
    // Missing entries count as not installed.
    let r = ModParser::check_for_updates(&mods, &Vec::new()).unwrap();
    assert_eq!(r.categories[0].mods[0].version, "1.0.0");
    assert_eq!(r.categories[0].name, "Essential");
    assert_eq!(r.categories[0].sort_order, 1);
}

#[test]
fn check_for_updates_twice_changes_nothing_more() {
    let mods = listing("1.0.1", "http://example.com/mod.zip");
    let local = vec![vec![Some("1.0.0".to_string())]];
    let once = ModParser::check_for_updates(&mods, &local).unwrap();
    let twice = ModParser::check_for_updates(&once, &local).unwrap();
    assert_eq!(twice.categories[0].mods[0].version, "1.0.0");
    assert_eq!(twice.categories[0].mods[0].new_version, Some("1.0.1".to_string()));
}

#[test]
fn repo_hash_is_sha256_prefix() {
    assert_eq!(repo_hash("http://example.com/repo.xml"), "85899b");
    assert_eq!(repo_hash("http://another.com/repo.xml"), "f0af1f");
    assert_eq!(repo_hash(""), "e3b0c4");
}

#[test]
fn version_file_is_inside_mod_dir() {
    let dir = repo_download_dir("/downloads", "http://example.com/repo.xml");
    assert_eq!(dir, "/downloads/85899b");
    assert_eq!(version_file("/downloads/85899b/Test Mod"), "/downloads/85899b/Test Mod/VERSION.txt");
}
