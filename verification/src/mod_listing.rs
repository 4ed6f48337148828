//! Building the mod view of a profile: fetch the repository listing (or
//! fall back to its cached copy), compare it with the installed versions,
//! order it, and add the deprecated and sideloaded mods. The caller does the
//! fetching, reading and scanning; this flow decides what to do and what
//! the view shows.

use crate::handlers::{
    active_mod_names, append_local_categories, cache_unreadable_message, cache_unreadable_msg,
    cached_listing_path, fetch_failed_message, fetch_failed_msg, listing_note, listing_note_spec,
    listing_url, listing_url_of, names_some_mod, no_cache_message, no_cache_msg, sideload_order,
    sort_categories, stably_sorted, with_deprecated,
};
use crate::layout::{repo_dir, repo_download_dir};
use crate::local_mods::holds_name;
use crate::parser::{category_checked, listing_checked, local_version_at, mod_checked, ModParser};
use crate::paths::{join_path, path_join};
use crate::settings::Settings;
use crate::types::{Category, ModsFile, ModsResult};
use crate::xml_cache::{cache_path_updated, update_cache_path_in_settings};
use vstd::prelude::*;

verus! {

/// The stages a mod view passes through, in order.
#[derive(Debug, Clone, Copy, PartialEq, Eq, Structural)]
pub enum ListingStage {
    Fetch,
    SaveSettings,
    LocateCache,
    LoadCache,
    LocalVersions,
    Deprecated,
    Sideload,
    Done,
}

/// Position of a stage in the order views pass through them.
pub open spec fn listing_rank(s: ListingStage) -> int {
    match s {
        ListingStage::Fetch => 0,
        ListingStage::SaveSettings => 1,
        ListingStage::LocateCache => 2,
        ListingStage::LoadCache => 3,
        ListingStage::LocalVersions => 4,
        ListingStage::Deprecated => 5,
        ListingStage::Sideload => 6,
        ListingStage::Done => 7,
    }
}

/// The work building a view asks its caller to do next.
#[derive(Debug)]
pub enum ListingStep {
    /// Fetch and parse the listing at the URL, caching it: `Fetched`.
    Fetch(String),
    /// Save these settings (a failure is only reported): `Acknowledged`.
    SaveSettings(Settings),
    /// The cache path of the listing at the URL, if there is a cache
    /// directory: `CachePath`.
    LocateCache(String),
    /// Read and parse the cached listing at the path: `CachedListing`.
    LoadCached(String),
    /// For each mod directory (by category, then mod), the content of its
    /// version file when the directory and the file exist and can be read:
    /// `LocalVersions`.
    ReadLocalVersions(Vec<Vec<String>>),
    /// The deprecated mods of the repository directory, given the names
    /// the listing still holds: `Scanned`.
    ScanDeprecated { dir: String, active: Vec<String> },
    /// The sideloaded mods of the directory: `Scanned`.
    ScanSideload(String),
    /// The view is complete.
    Finish(ModsResult),
}

/// The answer to a [`ListingStep`].
#[derive(Debug)]
pub enum ListingEvent {
    Fetched(Result<(ModsFile, Option<String>), String>),
    Acknowledged,
    CachePath(Option<String>),
    CachedListing(Result<ModsFile, String>),
    LocalVersions(Vec<Vec<Option<String>>>),
    Scanned(Option<Category>),
}

/// Building the mod view of one profile.
pub struct ListingFlow {
    settings: Settings,
    profile_index: usize,
    url: String,
    stage: ListingStage,
    listing: ModsFile,
    categories: Vec<Category>,
    error: Option<String>,
    fetch_error: String,
    from_cache: bool,
    deprecated: Option<Category>,
}

/// Whether `r` is the view made of the ordered categories `cats`, then the
/// deprecated and the sideloaded categories when they hold mods (the
/// sideloaded ones placed after the last), with the message `note`.
pub open spec fn view_of(
    cats: Seq<Category>,
    deprecated: Option<Category>,
    note: Option<Seq<char>>,
    r: ModsResult,
    sideload: Option<Category>,
) -> bool {
    &&& match r.error {
        Some(m) => note == Some(m@),
        None => note is None,
    }
    &&& {
        let with_dep = with_deprecated(cats, deprecated);
        match sideload {
            Some(s) => if s.mods@.len() > 0 {
                r.categories@ == with_dep.push(
                    Category { sort_order: sideload_order(with_dep) as i32, ..s },
                )
            } else {
                r.categories@ == with_dep
            },
            None => r.categories@ == with_dep,
        }
    }
}

/// The step once the deprecated mods `deprecated` are known: the sideload
/// directory is scanned when one is set; else the view `cats` (with the
/// deprecated mods and `note`) is complete.
pub open spec fn to_sideload_spec(
    settings: Settings,
    cats: Seq<Category>,
    deprecated: Option<Category>,
    note: Option<Seq<char>>,
    t: ListingFlow,
    step: ListingStep,
) -> bool {
    if settings.sideload_path@.len() > 0 {
        &&& t.stage() == ListingStage::Sideload
        &&& step matches ListingStep::ScanSideload(p) && p@ == settings.sideload_path@
        &&& t.categories() == cats
        &&& t.deprecated() == deprecated
    } else {
        &&& t.stage() == ListingStage::Done
        &&& step matches ListingStep::Finish(r) && view_of(cats, deprecated, note, r, None)
    }
}

/// The step once the ordered categories `cats` are known: the repository
/// directory of `url` is scanned for deprecated mods when a download
/// directory is set; else as [`to_sideload_spec`].
pub open spec fn after_categories_spec(
    settings: Settings,
    url: Seq<char>,
    cats: Seq<Category>,
    deprecated: Option<Category>,
    note: Option<Seq<char>>,
    t: ListingFlow,
    step: ListingStep,
) -> bool {
    if settings.download_path@.len() > 0 {
        &&& t.stage() == ListingStage::Deprecated
        &&& step matches ListingStep::ScanDeprecated { dir, active } && dir@ == repo_dir(
            settings.download_path@,
            url,
        ) && forall|n: Seq<char>| #[trigger] holds_name(active@, n) == names_some_mod(cats, n)
        &&& t.categories() == cats
        &&& t.deprecated() == deprecated
    } else {
        to_sideload_spec(settings, cats, deprecated, note, t, step)
    }
}

/// The mod directories of a listing inside the repository directory `dir`,
/// by category, then mod.
pub open spec fn mod_dirs_of(listing: ModsFile, dir: Seq<char>, dirs: Seq<Vec<String>>) -> bool {
    &&& dirs.len() == listing.categories@.len()
    &&& forall|c: int|
        0 <= c < dirs.len() ==> (#[trigger] dirs[c])@.len()
            == listing.categories@[c].mods@.len() && forall|m: int|
            0 <= m < dirs[c]@.len() ==> (#[trigger] dirs[c]@[m])@ == path_join(
                dir,
                listing.categories@[c].mods@[m].name@,
            )
}

/// The mod directories of `listing` inside the repository directory `dir`,
/// by category, then mod (see [`mod_dirs_of`]).
pub fn mod_dirs(listing: &ModsFile, dir: &str) -> (res: Vec<Vec<String>>)
    ensures
        mod_dirs_of(*listing, dir@, res@),
{
    let mut res: Vec<Vec<String>> = Vec::new();
    let mut c: usize = 0;
    while c < listing.categories.len()
        invariant
            c <= listing.categories@.len(),
            res@.len() == c,
            forall|k: int|
                0 <= k < c ==> (#[trigger] res@[k])@.len() == listing.categories@[k].mods@.len()
                    && forall|m: int|
                    0 <= m < res@[k]@.len() ==> (#[trigger] res@[k]@[m])@ == path_join(
                        dir@,
                        listing.categories@[k].mods@[m].name@,
                    ),
        decreases listing.categories.len() - c,
    {
        let mods = &listing.categories[c].mods;
        let mut row: Vec<String> = Vec::new();
        let mut m: usize = 0;
        while m < mods.len()
            invariant
                m <= mods@.len(),
                row@.len() == m,
                forall|j: int|
                    0 <= j < m ==> (#[trigger] row@[j])@ == path_join(dir@, mods@[j].name@),
            decreases mods.len() - m,
        {
            row.push(join_path(dir, mods[m].name.as_str()));
            m = m + 1;
        }
        res.push(row);
        c = c + 1;
    }
    res
}

impl ListingFlow {
    pub closed spec fn stage(&self) -> ListingStage {
        self.stage
    }

    /// The view's invariant: the categories stay empty, and no deprecated
    /// mods are known, until the listing is compared with the installed
    /// versions.
    pub closed spec fn inv(&self) -> bool {
        listing_rank(self.stage) <= listing_rank(ListingStage::LocalVersions) ==> self.categories@.len()
            == 0 && self.deprecated is None
    }

    /// The settings as the view leaves them (with the listing's cache path recorded).
    pub closed spec fn current_settings(&self) -> Settings {
        self.settings
    }

    /// The profile whose view this is.
    pub closed spec fn profile(&self) -> int {
        self.profile_index as int
    }

    /// The URL the listing is fetched from.
    pub closed spec fn url(&self) -> Seq<char> {
        self.url@
    }

    /// The listing compared with the installed versions (once fetched or read from the cache).
    pub closed spec fn listing(&self) -> ModsFile {
        self.listing
    }

    /// The ordered categories of the listing, once compared.
    pub closed spec fn categories(&self) -> Seq<Category> {
        self.categories@
    }

    /// The message shown with the view, before the note about the cache.
    pub closed spec fn error(&self) -> Option<String> {
        self.error
    }

    /// Whether the listing was read from its cache.
    pub closed spec fn from_cache(&self) -> bool {
        self.from_cache
    }

    /// The deprecated mods found (once scanned).
    pub closed spec fn deprecated(&self) -> Option<Category> {
        self.deprecated
    }

    /// The message shown with a view: the error, with the note about the cache.
    pub open spec fn shown_note(&self) -> Option<Seq<char>> {
        listing_note_spec(
            match self.error() {
                Some(m) => Some(m@),
                None => None,
            },
            self.from_cache(),
        )
    }

    /// Whether `r` is the view: the ordered categories, then the deprecated
    /// and the sideloaded categories when they hold mods, with the note.
    pub open spec fn is_view(&self, r: ModsResult, sideload: Option<Category>) -> bool {
        view_of(self.categories(), self.deprecated(), self.shown_note(), r, sideload)
    }

    /// Starts the view of profile `profile_index`: a profile index past the
    /// end gives the empty view with "Profile index out of bounds"; else the
    /// profile's listing is fetched from its repository URL without trailing
    /// slashes.
    pub fn new(settings: Settings, profile_index: usize) -> (res: (ListingFlow, ListingStep))
        ensures
            res.0.current_settings() == settings,
            res.0.profile() == profile_index,
            res.0.categories().len() == 0,
            res.0.error() is None,
            !res.0.from_cache(),
            res.0.deprecated() is None,
            res.0.inv(),
            profile_index >= settings.profiles@.len() ==> res.0.stage() == ListingStage::Done && (
            res.1 matches ListingStep::Finish(r) && r.categories@.len() == 0 && (r.error matches Some(
                m,
            ) && m@ == "Profile index out of bounds"@)),
            profile_index < settings.profiles@.len() ==> res.0.stage() == ListingStage::Fetch
                && res.0.url() == listing_url_of(settings.profiles@[profile_index as int].repo_url@)
                && (res.1 matches ListingStep::Fetch(u) && u@ == res.0.url()),
    {
        let in_range = profile_index < settings.profiles.len();
        let url = if in_range {
            listing_url(settings.profiles[profile_index].repo_url.as_str())
        } else {
            String::new()
        };
        let stage = if in_range {
            ListingStage::Fetch
        } else {
            ListingStage::Done
        };
        let step = if in_range {
            ListingStep::Fetch(url.clone())
        } else {
            ListingStep::Finish(
                ModsResult {
                    categories: Vec::new(),
                    error: Some(crate::text::owned("Profile index out of bounds")),
                },
            )
        };
        let flow = ListingFlow {
            settings,
            profile_index,
            url,
            stage,
            listing: ModsFile { categories: Vec::new() },
            categories: Vec::new(),
            error: None,
            fetch_error: String::new(),
            from_cache: false,
            deprecated: None,
        };
        (flow, step)
    }
}


/// The last placement among `cats` and a non-empty deprecated category.
fn last_order(cats: &Vec<Category>, deprecated: &Option<Category>) -> (res: Option<i32>)
    ensures
        with_deprecated(cats@, *deprecated).len() > 0 ==> res == Some(
            with_deprecated(cats@, *deprecated).last().sort_order,
        ),
        with_deprecated(cats@, *deprecated).len() == 0 ==> res is None,
{
    match deprecated {
        Some(d) => if d.mods.len() > 0 {
            return Some(d.sort_order);
        },
        None => {},
    }
    if cats.len() > 0 {
        Some(cats[cats.len() - 1].sort_order)
    } else {
        None
    }
}

impl ListingFlow {
    /// The error of the failed fetch (once it failed).
    pub closed spec fn fetch_error(&self) -> Seq<char> {
        self.fetch_error@
    }

    /// Whether the view waits for an answer of the kind of `event`, and
    /// the sideloaded mods it gets can still be placed after the last category.
    pub open spec fn awaits(&self, event: ListingEvent) -> bool {
        match self.stage() {
            ListingStage::Fetch => event is Fetched,
            ListingStage::SaveSettings => event is Acknowledged,
            ListingStage::LocateCache => event is CachePath,
            ListingStage::LoadCache => event is CachedListing,
            ListingStage::LocalVersions => event is LocalVersions,
            ListingStage::Deprecated => event is Scanned,
            ListingStage::Sideload => event is Scanned && (event matches ListingEvent::Scanned(Some(s))
                && s.mods@.len() > 0 ==> sideload_order(
                with_deprecated(self.categories(), self.deprecated()),
            ) <= i32::MAX),
            ListingStage::Done => false,
        }
    }

    /// Whether the view waits for an answer of the kind of `event` (see [`Self::awaits`]).
    pub fn accepts(&self, event: &ListingEvent) -> (res: bool)
        ensures
            res == self.awaits(*event),
    {
        match self.stage {
            ListingStage::Fetch => matches!(event, ListingEvent::Fetched(_)),
            ListingStage::SaveSettings => matches!(event, ListingEvent::Acknowledged),
            ListingStage::LocateCache => matches!(event, ListingEvent::CachePath(_)),
            ListingStage::LoadCache => matches!(event, ListingEvent::CachedListing(_)),
            ListingStage::LocalVersions => matches!(event, ListingEvent::LocalVersions(_)),
            ListingStage::Deprecated => matches!(event, ListingEvent::Scanned(_)),
            ListingStage::Sideload => match event {
                ListingEvent::Scanned(Some(side)) => if side.mods.len() > 0 {
                    match last_order(&self.categories, &self.deprecated) {
                        Some(o) => o < i32::MAX,
                        None => true,
                    }
                } else {
                    true
                },
                ListingEvent::Scanned(None) => true,
                _ => false,
            },
            ListingStage::Done => false,
        }
    }

    fn to_local_versions(&mut self) -> (step: ListingStep)
        ensures
            final(self).stage() == ListingStage::LocalVersions,
            step matches ListingStep::ReadLocalVersions(d) && mod_dirs_of(
                old(self).listing(),
                repo_dir(old(self).current_settings().download_path@, old(self).url()),
                d@,
            ),
            final(self).current_settings() == old(self).current_settings(),
            final(self).url() == old(self).url(),
            final(self).profile() == old(self).profile(),
            final(self).listing() == old(self).listing(),
            final(self).categories() == old(self).categories(),
            final(self).error() == old(self).error(),
            final(self).from_cache() == old(self).from_cache(),
            final(self).deprecated() == old(self).deprecated(),
            final(self).fetch_error() == old(self).fetch_error(),
    {
        let dir = repo_download_dir(self.settings.download_path.as_str(), self.url.as_str());
        self.stage = ListingStage::LocalVersions;
        ListingStep::ReadLocalVersions(mod_dirs(&self.listing, dir.as_str()))
    }

    fn finish(&mut self, sideload: Option<Category>) -> (step: ListingStep)
        requires
            sideload matches Some(s) && s.mods@.len() > 0 ==> sideload_order(
                with_deprecated(old(self).categories(), old(self).deprecated()),
            ) <= i32::MAX,
        ensures
            final(self).stage() == ListingStage::Done,
            step matches ListingStep::Finish(r) && old(self).is_view(r, sideload),
            final(self).error() == old(self).error(),
            final(self).from_cache() == old(self).from_cache(),
            final(self).current_settings() == old(self).current_settings(),
            final(self).url() == old(self).url(),
            final(self).profile() == old(self).profile(),
    {
        let mut cats: Vec<Category> = Vec::new();
        std::mem::swap(&mut cats, &mut self.categories);
        let mut deprecated: Option<Category> = None;
        std::mem::swap(&mut deprecated, &mut self.deprecated);
        append_local_categories(&mut cats, deprecated, sideload);
        let error = match &self.error {
            Some(m) => Some(m.clone()),
            None => None,
        };
        let note = listing_note(error, self.from_cache);
        self.stage = ListingStage::Done;
        ListingStep::Finish(ModsResult { categories: cats, error: note })
    }

    fn to_sideload(&mut self) -> (step: ListingStep)
        ensures
            to_sideload_spec(
                old(self).current_settings(),
                old(self).categories(),
                old(self).deprecated(),
                old(self).shown_note(),
                *final(self),
                step,
            ),
            final(self).error() == old(self).error(),
            final(self).from_cache() == old(self).from_cache(),
            final(self).current_settings() == old(self).current_settings(),
            final(self).url() == old(self).url(),
            final(self).profile() == old(self).profile(),
    {
        if self.settings.sideload_path.as_str().is_empty() {
            self.finish(None)
        } else {
            self.stage = ListingStage::Sideload;
            ListingStep::ScanSideload(self.settings.sideload_path.clone())
        }
    }

    fn after_categories(&mut self) -> (step: ListingStep)
        ensures
            after_categories_spec(
                old(self).current_settings(),
                old(self).url(),
                old(self).categories(),
                old(self).deprecated(),
                old(self).shown_note(),
                *final(self),
                step,
            ),
            final(self).error() == old(self).error(),
            final(self).from_cache() == old(self).from_cache(),
            final(self).current_settings() == old(self).current_settings(),
            final(self).url() == old(self).url(),
            final(self).profile() == old(self).profile(),
    {
        if self.settings.download_path.as_str().is_empty() {
            self.to_sideload()
        } else {
            let dir = repo_download_dir(self.settings.download_path.as_str(), self.url.as_str());
            let active = active_mod_names(&self.categories);
            self.stage = ListingStage::Deprecated;
            ListingStep::ScanDeprecated { dir, active }
        }
    }

    /// Continues the view with the answer to its last step.
    ///
    /// A fetched listing records its cache path in the settings (which are
    /// then saved when a profile uses its repository); a failed fetch falls
    /// back to the cached listing, recorded in the settings or else at the
    /// listing's cache path. The listing is compared with the installed
    /// versions and stably ordered by placement; then the deprecated mods
    /// of the repository directory (when a download directory is set) and
    /// the sideloaded mods (when a sideload directory is set) are added.
    pub fn resume(&mut self, event: ListingEvent) -> (step: ListingStep)
        requires
            old(self).inv(),
            old(self).awaits(event),
        ensures
            final(self).inv(),
            listing_rank(final(self).stage()) > listing_rank(old(self).stage()),
            (step is Finish) == (final(self).stage() == ListingStage::Done),
            final(self).url() == old(self).url(),
            final(self).profile() == old(self).profile(),
            old(self).stage() != ListingStage::Fetch ==> final(self).current_settings() == old(self).current_settings(),
            old(self).stage() == ListingStage::Fetch ==> match event {
                ListingEvent::Fetched(Ok((l, cache))) => final(self).listing() == l && final(self).error()
                    == old(self).error() && final(self).from_cache() == old(self).from_cache()
                    && match cache {
                    Some(p) => exists|matched: bool|
                        cache_path_updated(
                            old(self).current_settings(),
                            final(self).current_settings(),
                            old(self).url(),
                            p@,
                            matched,
                        ) && if matched {
                            step matches ListingStep::SaveSettings(s) && s.profiles@ == final(self).current_settings().profiles@ && s.cached_xml_paths@ == final(self).current_settings().cached_xml_paths@ && s.download_path == final(self).current_settings().download_path && s.sideload_path == final(self).current_settings().sideload_path && s.dark_mode == final(self).current_settings().dark_mode
                        } else {
                            step is ReadLocalVersions
                        },
                    None => final(self).current_settings() == old(self).current_settings() && (
                    step matches ListingStep::ReadLocalVersions(d) && mod_dirs_of(
                        l,
                        repo_dir(old(self).current_settings().download_path@, old(self).url()),
                        d@,
                    )),
                },
                ListingEvent::Fetched(Err(e)) => final(self).current_settings() == old(self).current_settings() && final(self).fetch_error() == e@ && (final(self).error() matches Some(
                    m,
                ) && m@ == fetch_failed_msg(e@)) && {
                    let paths = old(self).current_settings().cached_xml_paths@;
                    let i = old(self).profile();
                    if i < paths.len() && paths[i]@.len() > 0 {
                        step matches ListingStep::LoadCached(p) && p == paths[i]
                    } else {
                        step matches ListingStep::LocateCache(u) && u@ == old(self).url()
                    }
                },
                _ => false,
            },
            old(self).stage() == ListingStage::SaveSettings ==> final(self).stage()
                == ListingStage::LocalVersions && final(self).error() == old(self).error()
                && final(self).from_cache() == old(self).from_cache() && final(self).listing()
                == old(self).listing() && (step matches ListingStep::ReadLocalVersions(d)
                && mod_dirs_of(
                old(self).listing(),
                repo_dir(old(self).current_settings().download_path@, old(self).url()),
                d@,
            )),
            old(self).stage() == ListingStage::LocateCache ==> match event {
                ListingEvent::CachePath(Some(p)) => step == ListingStep::LoadCached(p) && final(self).stage() == ListingStage::LoadCache,
                _ => (final(self).error() matches Some(m) && m@ == no_cache_msg(
                    old(self).fetch_error(),
                )) && final(self).from_cache() == old(self).from_cache() && after_categories_spec(
                    old(self).current_settings(),
                    old(self).url(),
                    Seq::empty(),
                    None,
                    final(self).shown_note(),
                    *final(self),
                    step,
                ),
            },
            old(self).stage() == ListingStage::LoadCache ==> match event {
                ListingEvent::CachedListing(Ok(l)) => final(self).from_cache() && final(self).listing() == l && (step matches ListingStep::ReadLocalVersions(d) && mod_dirs_of(
                    l,
                    repo_dir(old(self).current_settings().download_path@, old(self).url()),
                    d@,
                )),
                _ => (final(self).error() matches Some(m) && m@ == cache_unreadable_msg(
                    old(self).fetch_error(),
                )) && final(self).from_cache() == old(self).from_cache() && after_categories_spec(
                    old(self).current_settings(),
                    old(self).url(),
                    Seq::empty(),
                    None,
                    final(self).shown_note(),
                    *final(self),
                    step,
                ),
            },
            old(self).stage() == ListingStage::LocalVersions ==> match event {
                ListingEvent::LocalVersions(v) => final(self).error() == old(self).error()
                    && final(self).from_cache() == old(self).from_cache() && exists|
                    checked: ModsFile,
                    cats: Seq<Category>,
                |
                    #![trigger listing_checked(old(self).listing(), checked, v@), stably_sorted(checked.categories@, cats)]
                    listing_checked(old(self).listing(), checked, v@) && stably_sorted(
                        checked.categories@,
                        cats,
                    ) && after_categories_spec(
                        old(self).current_settings(),
                        old(self).url(),
                        cats,
                        old(self).deprecated(),
                        old(self).shown_note(),
                        *final(self),
                        step,
                    ),
                _ => false,
            },
            step matches ListingStep::ScanDeprecated { dir, active } ==> dir@ == repo_dir(
                final(self).current_settings().download_path@,
                final(self).url(),
            ) && forall|n: Seq<char>| #[trigger] holds_name(active@, n) == names_some_mod(
                final(self).categories(),
                n,
            ),
            old(self).stage() == ListingStage::Deprecated ==> match event {
                ListingEvent::Scanned(d) => to_sideload_spec(
                    old(self).current_settings(),
                    old(self).categories(),
                    d,
                    old(self).shown_note(),
                    *final(self),
                    step,
                ),
                _ => false,
            },
            old(self).stage() == ListingStage::Sideload ==> match event {
                ListingEvent::Scanned(side) => step matches ListingStep::Finish(r) && old(self).is_view(r, side),
                _ => false,
            },
    {
        match event {
            ListingEvent::Fetched(fetched) => match fetched {
                Ok((listing, cache)) => {
                    self.listing = listing;
                    match cache {
                        Some(p) => {
                            let ghost before = self.settings;
                            let matched = update_cache_path_in_settings(
                                &mut self.settings,
                                self.url.as_str(),
                                p.as_str(),
                            );
                            assert(cache_path_updated(before, self.settings, self.url@, p@, matched));
                            let step = if matched {
                                self.stage = ListingStage::SaveSettings;
                                ListingStep::SaveSettings(self.settings.duplicate())
                            } else {
                                self.to_local_versions()
                            };
                            assert(cache_path_updated(
                                old(self).current_settings(),
                                self.current_settings(),
                                old(self).url(),
                                p@,
                                matched,
                            ));
                            step
                        },
                        None => self.to_local_versions(),
                    }
                },
                Err(e) => {
                    self.error = Some(fetch_failed_message(e.as_str()));
                    self.fetch_error = e;
                    let recorded = cached_listing_path(&self.settings, self.profile_index, None);
                    proof {
                        let paths = self.settings.cached_xml_paths@;
                        let i = self.profile_index as int;
                        if i < paths.len() && paths[i]@.len() > 0 {
                            assert(recorded == Some(paths[i]));
                        } else {
                            assert(recorded is None);
                        }
                    }
                    match recorded {
                        Some(p) => {
                            self.stage = ListingStage::LoadCache;
                            ListingStep::LoadCached(p)
                        },
                        None => {
                            self.stage = ListingStage::LocateCache;
                            ListingStep::LocateCache(self.url.clone())
                        },
                    }
                },
            },
            ListingEvent::Acknowledged => self.to_local_versions(),
            ListingEvent::CachePath(found) => match found {
                Some(p) => {
                    self.stage = ListingStage::LoadCache;
                    ListingStep::LoadCached(p)
                },
                None => {
                    self.error = Some(no_cache_message(self.fetch_error.as_str()));
                    assert(self.categories@ =~= Seq::<Category>::empty());
                    self.after_categories()
                },
            },
            ListingEvent::CachedListing(loaded) => match loaded {
                Ok(listing) => {
                    self.from_cache = true;
                    self.listing = listing;
                    self.to_local_versions()
                },
                Err(_) => {
                    self.error = Some(cache_unreadable_message(self.fetch_error.as_str()));
                    assert(self.categories@ =~= Seq::<Category>::empty());
                    self.after_categories()
                },
            },
            ListingEvent::LocalVersions(v) => {
                let checked = ModParser::check_for_updates(&self.listing, &v);
                match checked {
                    Ok(c) => {
                        let ghost cg = c;
                        self.categories = sort_categories(c.categories);
                        let ghost cats = self.categories@;
                        assert(listing_checked(self.listing, cg, v@) && stably_sorted(
                            cg.categories@,
                            cats,
                        ));
                        let step = self.after_categories();
                        assert(after_categories_spec(
                            old(self).current_settings(),
                            old(self).url(),
                            cats,
                            old(self).deprecated(),
                            old(self).shown_note(),
                            *self,
                            step,
                        ));
                        assert(listing_checked(old(self).listing(), cg, v@));
                        assert(stably_sorted(cg.categories@, cats));
                        step
                    },
                    Err(_) => unreached(),
                }
            },
            ListingEvent::Scanned(found) => if self.stage == ListingStage::Deprecated {
                self.deprecated = found;
                self.to_sideload()
            } else {
                self.finish(found)
            },
        }
    }
}


/// Comparing a listing with the installed versions depends on the
/// repository's own directory alone: the version files read are those of
/// the listed mods' directories inside the download directory of `url`, and
/// two comparisons against the same versions give the same listing, mod by
/// mod.
pub proof fn lemma_check_reads_own_repo(
    listing: ModsFile,
    base: Seq<char>,
    url: Seq<char>,
    dirs: Seq<Vec<String>>,
    local: Seq<Vec<Option<String>>>,
    a: ModsFile,
    b: ModsFile,
)
    requires
        mod_dirs_of(listing, repo_dir(base, url), dirs),
        listing_checked(listing, a, local),
        listing_checked(listing, b, local),
    ensures
        forall|c: int, m: int|
            0 <= c < dirs.len() && 0 <= m < dirs[c]@.len() ==> (#[trigger] dirs[c]@[m])@
                == path_join(repo_dir(base, url), listing.categories@[c].mods@[m].name@),
        a.categories@.len() == b.categories@.len(),
        forall|c: int|
            0 <= c < a.categories@.len() ==> {
                let ca = #[trigger] a.categories@[c];
                let cb = b.categories@[c];
                &&& ca.name == cb.name
                &&& ca.sort_order == cb.sort_order
                &&& ca.mods@.len() == cb.mods@.len()
                &&& forall|m: int|
                    0 <= m < ca.mods@.len() ==> {
                        let ma = #[trigger] ca.mods@[m];
                        let mb = cb.mods@[m];
                        &&& ma.name == mb.name
                        &&& ma.url == mb.url
                        &&& ma.description == mb.description
                        &&& ma.version@ == mb.version@
                        &&& ma.new_version == mb.new_version
                    }
            },
{
    assert forall|c: int| 0 <= c < a.categories@.len() implies {
        let ca = #[trigger] a.categories@[c];
        let cb = b.categories@[c];
        &&& ca.name == cb.name
        &&& ca.sort_order == cb.sort_order
        &&& ca.mods@.len() == cb.mods@.len()
        &&& forall|m: int|
            0 <= m < ca.mods@.len() ==> {
                let ma = #[trigger] ca.mods@[m];
                let mb = cb.mods@[m];
                &&& ma.name == mb.name
                &&& ma.url == mb.url
                &&& ma.description == mb.description
                &&& ma.version@ == mb.version@
                &&& ma.new_version == mb.new_version
            }
    } by {
        assert(category_checked(listing.categories@[c], a.categories@[c], local, c));
        assert(category_checked(listing.categories@[c], b.categories@[c], local, c));
        assert forall|m: int| 0 <= m < a.categories@[c].mods@.len() implies {
            let ma = #[trigger] a.categories@[c].mods@[m];
            let mb = b.categories@[c].mods@[m];
            &&& ma.name == mb.name
            &&& ma.url == mb.url
            &&& ma.description == mb.description
            &&& ma.version@ == mb.version@
            &&& ma.new_version == mb.new_version
        } by {
            let lv = local_version_at(local, c, m);
            assert(mod_checked(listing.categories@[c].mods@[m], a.categories@[c].mods@[m], lv));
            assert(mod_checked(listing.categories@[c].mods@[m], b.categories@[c].mods@[m], lv));
        }
    }
}

} // verus!
