//! User settings: theme, download and sideload directories, profiles, and
//! the cached repository listings of each profile.

use crate::text::{owned, text_eq};
use vstd::prelude::*;

verus! {

/// A DCS installation paired with the repository its mods come from.
#[derive(Debug, Clone)]
pub struct Profile {
    pub name: String,
    pub dcs_path: String,
    pub repo_url: String,
}

impl Profile {
    /// An owned copy of this profile.
    pub fn duplicate(&self) -> (res: Profile)
        ensures
            res == *self,
    {
        Profile {
            name: self.name.clone(),
            dcs_path: self.dcs_path.clone(),
            repo_url: self.repo_url.clone(),
        }
    }
}

/// The colour scheme of the user interface.
#[derive(Debug, Clone, Copy, PartialEq, Eq, Structural)]
pub enum DarkMode {
    System,
    Light,
    Dark,
}

/// Everything the mod manager remembers between runs.
#[derive(Debug, Clone)]
pub struct Settings {
    pub dark_mode: DarkMode,
    pub download_path: String,
    pub sideload_path: String,
    pub profiles: Vec<Profile>,
    /// Path of the cached listing of each profile, by profile index.
    pub cached_xml_paths: Vec<String>,
}

/// A request to change one named setting.
#[derive(Debug, Clone)]
pub struct SettingsUpdate {
    pub key: String,
    pub value: String,
}

/// The version of the application.
#[derive(Debug, Clone)]
pub struct AppVersion {
    pub version: String,
}

impl Default for Settings {
    fn default() -> (res: Settings)
        ensures
            res.dark_mode == DarkMode::System,
            res.download_path@ == Seq::<char>::empty(),
            res.sideload_path@ == Seq::<char>::empty(),
            res.profiles@ == Seq::<Profile>::empty(),
            res.cached_xml_paths@ == Seq::<String>::empty(),
    {
        Settings {
            dark_mode: DarkMode::System,
            download_path: String::new(),
            sideload_path: String::new(),
            profiles: Vec::new(),
            cached_xml_paths: Vec::new(),
        }
    }
}

/// The profile list after storing `p` at `index`: it replaces the profile
/// there, or is appended when `index` is past the end.
pub open spec fn with_profile(ps: Seq<Profile>, index: int, p: Profile) -> Seq<Profile> {
    if index >= ps.len() {
        ps.push(p)
    } else {
        ps.update(index, p)
    }
}

/// Whether `i` is the first position of a profile named `name`.
pub open spec fn is_first_named(ps: Seq<Profile>, name: Seq<char>, i: int) -> bool {
    &&& 0 <= i < ps.len()
    &&& ps[i].name@ == name
    &&& forall|j: int| 0 <= j < i ==> ps[j].name@ != name
}

/// Whether `i` is the first position of a profile whose repository is `url`.
pub open spec fn is_first_with_repo(ps: Seq<Profile>, url: Seq<char>, i: int) -> bool {
    &&& 0 <= i < ps.len()
    &&& ps[i].repo_url@ == url
    &&& forall|j: int| 0 <= j < i ==> ps[j].repo_url@ != url
}

/// Whether the settings other than the profiles are those of `b`.
pub open spec fn same_except_profiles(a: Settings, b: Settings) -> bool {
    &&& a.dark_mode == b.dark_mode
    &&& a.download_path == b.download_path
    &&& a.sideload_path == b.sideload_path
    &&& a.cached_xml_paths == b.cached_xml_paths
}

impl Settings {
    /// An owned copy of these settings.
    pub fn duplicate(&self) -> (res: Settings)
        ensures
            res.dark_mode == self.dark_mode,
            res.download_path == self.download_path,
            res.sideload_path == self.sideload_path,
            res.profiles@ == self.profiles@,
            res.cached_xml_paths@ == self.cached_xml_paths@,
    {
        let mut profiles: Vec<Profile> = Vec::new();
        let mut i: usize = 0;
        while i < self.profiles.len()
            invariant
                i <= self.profiles@.len(),
                profiles@ == self.profiles@.take(i as int),
            decreases self.profiles.len() - i,
        {
            profiles.push(self.profiles[i].duplicate());
            assert(self.profiles@.take(i + 1) == self.profiles@.take(i as int).push(
                self.profiles@[i as int],
            ));
            i = i + 1;
        }
        let mut paths: Vec<String> = Vec::new();
        let mut k: usize = 0;
        while k < self.cached_xml_paths.len()
            invariant
                k <= self.cached_xml_paths@.len(),
                paths@ == self.cached_xml_paths@.take(k as int),
            decreases self.cached_xml_paths.len() - k,
        {
            paths.push(self.cached_xml_paths[k].clone());
            assert(self.cached_xml_paths@.take(k + 1) == self.cached_xml_paths@.take(
                k as int,
            ).push(self.cached_xml_paths@[k as int]));
            k = k + 1;
        }
        assert(self.profiles@.take(self.profiles@.len() as int) == self.profiles@);
        assert(self.cached_xml_paths@.take(self.cached_xml_paths@.len() as int)
            == self.cached_xml_paths@);
        Settings {
            dark_mode: self.dark_mode,
            download_path: self.download_path.clone(),
            sideload_path: self.sideload_path.clone(),
            profiles,
            cached_xml_paths: paths,
        }
    }

    /// Applies a change of one named setting. The keys `download_path` and
    /// `sideload_path` set that directory; any other key is refused with
    /// "Invalid settings key" and changes nothing.
    pub fn apply_update(&mut self, update: SettingsUpdate) -> (res: Result<(), String>)
        ensures
            update.key@ == "download_path"@ ==> res is Ok && *final(self) == (Settings {
                download_path: update.value,
                ..*old(self)
            }),
            update.key@ != "download_path"@ && update.key@ == "sideload_path"@ ==> res is Ok
                && *final(self) == (Settings { sideload_path: update.value, ..*old(self) }),
            update.key@ != "download_path"@ && update.key@ != "sideload_path"@ ==> *final(self)
                == *old(self) && res is Err && res->Err_0@ == "Invalid settings key"@,
    {
        if text_eq(update.key.as_str(), "download_path") {
            self.download_path = update.value;
            Ok(())
        } else if text_eq(update.key.as_str(), "sideload_path") {
            self.sideload_path = update.value;
            Ok(())
        } else {
            Err(owned("Invalid settings key"))
        }
    }

    /// Stores `profile` at `index`: it replaces the profile there, or is
    /// appended when `index` is past the end of the list.
    pub fn store_profile(&mut self, index: usize, profile: Profile)
        ensures
            final(self).profiles@ == with_profile(old(self).profiles@, index as int, profile),
            same_except_profiles(*final(self), *old(self)),
    {
        if index >= self.profiles.len() {
            self.profiles.push(profile);
        } else {
            self.profiles.set(index, profile);
        }
    }

    /// Removes the profile at `index`; an index past the end is refused with
    /// "Profile index out of bounds" and changes nothing.
    pub fn remove_profile(&mut self, index: usize) -> (res: Result<(), String>)
        ensures
            index < old(self).profiles@.len() ==> res is Ok && final(self).profiles@ == old(
                self,
            ).profiles@.remove(index as int),
            index >= old(self).profiles@.len() ==> res is Err && res->Err_0@
                == "Profile index out of bounds"@ && final(self).profiles@ == old(self).profiles@,
            same_except_profiles(*final(self), *old(self)),
    {
        if index >= self.profiles.len() {
            return Err(owned("Profile index out of bounds"));
        }
        self.profiles.remove(index);
        Ok(())
    }

    /// Position of the first profile named `name`, if any.
    pub fn profile_index_by_name(&self, name: &str) -> (res: Option<usize>)
        ensures
            res matches Some(i) ==> is_first_named(self.profiles@, name@, i as int),
            res is None ==> forall|j: int|
                0 <= j < self.profiles@.len() ==> #[trigger] self.profiles@[j].name@ != name@,
    {
        let mut i: usize = 0;
        while i < self.profiles.len()
            invariant
                i <= self.profiles@.len(),
                forall|j: int| 0 <= j < i ==> #[trigger] self.profiles@[j].name@ != name@,
            decreases self.profiles.len() - i,
        {
            if text_eq(self.profiles[i].name.as_str(), name) {
                return Some(i);
            }
            i = i + 1;
        }
        None
    }

    /// Position of the first profile whose repository is `url`, if any.
    pub fn profile_index_by_repo_url(&self, url: &str) -> (res: Option<usize>)
        ensures
            res matches Some(i) ==> is_first_with_repo(self.profiles@, url@, i as int),
            res is None ==> forall|j: int|
                0 <= j < self.profiles@.len() ==> #[trigger] self.profiles@[j].repo_url@ != url@,
    {
        let mut i: usize = 0;
        while i < self.profiles.len()
            invariant
                i <= self.profiles@.len(),
                forall|j: int| 0 <= j < i ==> #[trigger] self.profiles@[j].repo_url@ != url@,
            decreases self.profiles.len() - i,
        {
            if text_eq(self.profiles[i].repo_url.as_str(), url) {
                return Some(i);
            }
            i = i + 1;
        }
        None
    }
}

/// Storing a new profile past the end and then removing it again gives back
/// the profile list as it was.
pub proof fn lemma_store_then_remove_new_profile(ps: Seq<Profile>, index: int, p: Profile)
    requires
        index >= ps.len(),
    ensures
        with_profile(ps, index, p).remove(ps.len() as int) == ps,
{
    assert(ps.push(p).remove(ps.len() as int) =~= ps);
}

/// Storing a profile at an existing position keeps the number of profiles,
/// and storing past the end adds exactly one.
pub proof fn lemma_store_profile_count(ps: Seq<Profile>, index: int, p: Profile)
    requires
        index >= 0,
    ensures
        index < ps.len() ==> with_profile(ps, index, p).len() == ps.len(),
        index >= ps.len() ==> with_profile(ps, index, p).len() == ps.len() + 1,
{
}

/// After storing a profile, reading the position it went to gives it back,
/// and every other profile is unchanged.
pub proof fn lemma_store_profile_read_back(ps: Seq<Profile>, index: int, p: Profile)
    requires
        index >= 0,
    ensures
        ({
            let at = if index < ps.len() {
                index
            } else {
                ps.len() as int
            };
            &&& with_profile(ps, index, p)[at] == p
            &&& forall|j: int| 0 <= j < ps.len() && j != at ==> #[trigger] with_profile(ps, index, p)[j] == ps[j]
        }),
{
}

} // verus!
