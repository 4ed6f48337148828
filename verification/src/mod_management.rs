//! Enabling, disabling, deleting and updating an installed mod: finding its
//! directory, and the sequence of work each operation performs with the
//! decisions it takes from what it finds on disk. The caller does the work
//! each step names (copying files into the game directory among it) and
//! answers with what came of it.

use crate::layout::{repo_dir, repo_download_dir};
use crate::paths::{join_path, path_exists, path_is_dir, path_join};
use crate::settings::{is_first_named, Settings};
use crate::text::{concat_text, concat_text3, owned};
use crate::types::ModError;
use vstd::prelude::*;

verus! {

/// The answer of a mod operation: whether it succeeded, with an optional message.
#[derive(Debug, Clone)]
pub struct ModResult {
    pub success: bool,
    pub message: Option<String>,
}

impl ModResult {
    /// A successful answer with the given message.
    pub fn succeeded(message: Option<&str>) -> (res: ModResult)
        ensures
            res.success,
            message is None ==> res.message is None,
            message matches Some(m) ==> (res.message matches Some(r) && r@ == m@),
    {
        ModResult {
            success: true,
            message: match message {
                Some(m) => Some(owned(m)),
                None => None,
            },
        }
    }
}

/// The message when a mod is found in neither place it may be.
pub open spec fn mod_not_found_msg(mod_name: Seq<char>, repo_dir: Seq<char>) -> Seq<char> {
    "Could not find mod '"@ + mod_name
        + "' in profile-specific download directory ("@ + repo_dir + ") or sideload directory"@
}

/// Chooses a mod's directory from what is on disk: its directory in the
/// profile's repository directory when that is a directory, else its
/// directory in the sideload directory (when one is set) when that
/// exists, else an error naming the repository directory.
pub fn choose_mod_dir(
    mod_name: &str,
    repo_dir_path: &str,
    specific: String,
    specific_is_dir: bool,
    sideload: Option<String>,
    sideload_exists: bool,
) -> (res: Result<String, ModError>)
    ensures
        specific_is_dir ==> res == Ok::<String, ModError>(specific),
        !specific_is_dir && sideload is Some && sideload_exists ==> res == Ok::<String, ModError>(
            sideload->0,
        ),
        !specific_is_dir && !(sideload is Some && sideload_exists) ==> (res matches Err(
            ModError::DirectoryStructureError(m),
        ) && m@ == mod_not_found_msg(mod_name@, repo_dir_path@)),
{
    if specific_is_dir {
        return Ok(specific);
    }
    match sideload {
        Some(s) => if sideload_exists {
            return Ok(s);
        },
        None => {},
    }
    let head = concat_text3("Could not find mod '", mod_name, "' in profile-specific download directory (");
    let mid = concat_text(head.as_str(), repo_dir_path);
    Err(ModError::DirectoryStructureError(concat_text(mid.as_str(), ") or sideload directory")))
}

/// What finding the directory of mod `mod_name` for profile `profile_name`
/// may give under `settings`: an error when no profile has that name; else
/// the mod's directory in the profile's repository directory or in the
/// sideload directory (when one is set), or an error naming the repository
/// directory.
pub open spec fn located(
    settings: Settings,
    mod_name: Seq<char>,
    profile_name: Seq<char>,
    res: Result<String, ModError>,
) -> bool {
    &&& (forall|i: int| !is_first_named(settings.profiles@, profile_name, i)) ==> (res matches Err(
        ModError::SettingsError(m),
    ) && m@ == "Profile '"@ + profile_name + "' not found for finding mod dir"@)
    &&& forall|i: int|
        is_first_named(settings.profiles@, profile_name, i) ==> {
            let dir = repo_dir(settings.download_path@, settings.profiles@[i].repo_url@);
            match res {
                Ok(p) => p@ == path_join(dir, mod_name) || (settings.sideload_path@.len() > 0
                    && p@ == path_join(settings.sideload_path@, mod_name)),
                Err(e) => e is DirectoryStructureError && e->DirectoryStructureError_0@
                    == mod_not_found_msg(mod_name, dir),
            }
        }
}

/// Finds the directory of mod `mod_name` for profile `profile_name`: in the
/// download directory of the profile's repository when it is there, else in
/// the sideload directory (see [`located`]). Which of the two is chosen
/// depends on the file system at the time of the call; [`choose_mod_dir`] is
/// the decision.
pub fn find_mod_dir(settings: &Settings, mod_name: &str, profile_name: &str) -> (res: Result<
    String,
    ModError,
>)
    ensures
        located(*settings, mod_name@, profile_name@, res),
{
    let index = match settings.profile_index_by_name(profile_name) {
        Some(i) => i,
        None => {
            proof {
                assert forall|k: int| !is_first_named(settings.profiles@, profile_name@, k) by {
                    if 0 <= k < settings.profiles@.len() {
                        assert(settings.profiles@[k].name@ != profile_name@);
                    }
                }
            }
            return Err(
                ModError::SettingsError(
                    concat_text3("Profile '", profile_name, "' not found for finding mod dir"),
                ),
            );
        },
    };
    proof {
        assert forall|k: int| is_first_named(settings.profiles@, profile_name@, k) implies k
            == index by {
            if k < index {
                assert(settings.profiles@[k].name@ != profile_name@);
            }
            if index < k {
                assert(settings.profiles@[index as int].name@ != profile_name@);
            }
        }
    }
    let dir = repo_download_dir(
        settings.download_path.as_str(),
        settings.profiles[index].repo_url.as_str(),
    );
    let specific = join_path(dir.as_str(), mod_name);
    let specific_is_dir = path_is_dir(specific.as_str());
    let (sideload, sideload_exists) = if specific_is_dir || settings.sideload_path.as_str().is_empty() {
        (None, false)
    } else {
        let candidate = join_path(settings.sideload_path.as_str(), mod_name);
        let exists = path_exists(candidate.as_str());
        (Some(candidate), exists)
    };
    choose_mod_dir(mod_name, dir.as_str(), specific, specific_is_dir, sideload, sideload_exists)
}

/// What enabling a mod does, given what is on disk.
#[derive(Debug, Clone, Copy, PartialEq, Eq, Structural)]
pub enum EnableStart {
    /// The mod is already enabled for the profile: nothing to do.
    AlreadyEnabled,
    /// Another enabling of the mod is under way: refused.
    InProgress,
    /// Enable it.
    Proceed,
}

/// Decides how enabling starts: an enabled marker means it is already
/// enabled; else an enabling marker means an enabling is under way.
pub fn enable_start(enabled_marker_exists: bool, enabling_marker_exists: bool) -> (res: EnableStart)
    ensures
        enabled_marker_exists ==> res == EnableStart::AlreadyEnabled,
        !enabled_marker_exists && enabling_marker_exists ==> res == EnableStart::InProgress,
        !enabled_marker_exists && !enabling_marker_exists ==> res == EnableStart::Proceed,
{
    if enabled_marker_exists {
        EnableStart::AlreadyEnabled
    } else if enabling_marker_exists {
        EnableStart::InProgress
    } else {
        EnableStart::Proceed
    }
}

/// The answer and error that go with an [`EnableStart`] that ends enabling
/// early: "Mod already enabled", or "Mod is currently being enabled".
pub fn enable_early_answer(start: EnableStart) -> (res: Option<Result<ModResult, ModError>>)
    ensures
        start == EnableStart::Proceed ==> res is None,
        start == EnableStart::AlreadyEnabled ==> (res matches Some(Ok(r)) && r.success
            && (r.message matches Some(m) && m@ == "Mod already enabled"@)),
        start == EnableStart::InProgress ==> (res matches Some(Err(ModError::EnablementError(m)))
            && m@ == "Mod is currently being enabled"@),
{
    match start {
        EnableStart::AlreadyEnabled => Some(Ok(ModResult::succeeded(Some("Mod already enabled")))),
        EnableStart::InProgress => Some(
            Err(ModError::EnablementError(owned("Mod is currently being enabled"))),
        ),
        EnableStart::Proceed => None,
    }
}

/// The answer to disabling a mod that is not enabled: "Mod already disabled".
pub fn disable_early_answer(enabled_marker_exists: bool) -> (res: Option<ModResult>)
    ensures
        enabled_marker_exists ==> res is None,
        !enabled_marker_exists ==> (res matches Some(r) && r.success && (r.message matches Some(m)
            && m@ == "Mod already disabled"@)),
{
    if enabled_marker_exists {
        None
    } else {
        Some(ModResult::succeeded(Some("Mod already disabled")))
    }
}

/// The check an update makes before replacing a mod: it is refused with
/// "Cannot update mod while it is being enabled" while the mod's enabling
/// marker exists, and goes on otherwise.
pub fn update_enabling_check(enabling_marker_exists: bool) -> (res: Result<(), ModError>)
    ensures
        !enabling_marker_exists ==> res is Ok,
        enabling_marker_exists ==> (res matches Err(ModError::EnablementError(m)) && m@
            == "Cannot update mod while it is being enabled"@),
{
    if enabling_marker_exists {
        Err(ModError::EnablementError(owned("Cannot update mod while it is being enabled")))
    } else {
        Ok(())
    }
}

/// The archive name an update of `mod_name` downloads: `<mod_name>.zip`.
pub fn update_filename(mod_name: &str) -> (res: String)
    ensures
        res@ == mod_name@ + ".zip"@,
{
    concat_text(mod_name, ".zip")
}


/// The operation a [`ManageFlow`] carries out.
#[derive(Debug, Clone, Copy, PartialEq, Eq, Structural)]
pub enum Command {
    Enable,
    Disable,
    Delete,
    Update,
}

/// The two marker files kept in a mod's directory for a profile: one while
/// the mod is being enabled, one once it is enabled.
#[derive(Debug, Clone, Copy, PartialEq, Eq, Structural)]
pub enum Marker {
    Enabling,
    Enabled,
}

/// The points a mod operation passes through, in order.
#[derive(Debug, Clone, Copy, PartialEq, Eq, Structural)]
pub enum ManageStage {
    Settings,
    DcsExists,
    SideloadCheck,
    Verify,
    Markers,
    SubDisable,
    RemoveDir,
    WriteEnabling,
    Version,
    Process,
    Rollback,
    RemoveEnabling,
    WriteEnabled,
    RemoveEnabled,
    Download,
    Reenable,
    Done,
}

/// Position of a stage in the order operations pass through them.
pub open spec fn manage_rank(s: ManageStage) -> int {
    match s {
        ManageStage::Settings => 0,
        ManageStage::DcsExists => 1,
        ManageStage::SideloadCheck => 2,
        ManageStage::Verify => 3,
        ManageStage::Markers => 4,
        ManageStage::SubDisable => 5,
        ManageStage::RemoveDir => 6,
        ManageStage::WriteEnabling => 7,
        ManageStage::Version => 8,
        ManageStage::Process => 9,
        ManageStage::Rollback => 10,
        ManageStage::RemoveEnabling => 11,
        ManageStage::WriteEnabled => 12,
        ManageStage::RemoveEnabled => 13,
        ManageStage::Download => 14,
        ManageStage::Reenable => 15,
        ManageStage::Done => 16,
    }
}

/// The work a mod operation asks its caller to do next; each is answered
/// with the [`ManageEvent`] named in its description.
#[derive(Debug)]
pub enum ManageStep {
    /// Load the settings: `SettingsLoaded`.
    LoadSettings,
    /// Whether the path exists: `Exists`.
    CheckExists(String),
    /// Check that the mod directory has the layout of a mod: `Checked`.
    VerifyStructure(String),
    /// Whether the mod's markers for the profile exist: `Markers`.
    CheckMarkers { mod_dir: String, profile_name: String },
    /// Create the (empty) marker: `Written`.
    WriteMarker { mod_dir: String, profile_name: String, marker: Marker },
    /// Remove the marker: `Written`.
    RemoveMarker { mod_dir: String, profile_name: String, marker: Marker },
    /// Read the installed version of the mod: `Version`.
    ReadVersion(String),
    /// Copy the mod's files from `source` into the game directory `dcs_dir`,
    /// or take them out again when `remove`: `Checked`.
    ProcessDirs { source: String, dcs_dir: String, mod_name: String, version: String, remove: bool },
    /// Remove the directory and everything in it: `Written`.
    RemoveDirectory(String),
    /// Disable the mod for the profile (a whole operation of its own): `CommandDone`.
    Disable { mod_name: String, profile_name: String },
    /// Enable the mod for the profile (a whole operation of its own): `CommandDone`.
    Enable { mod_name: String, profile_name: String },
    /// Download and install `filename` from `url` for the repository
    /// `repo_url` (a whole download of its own): `Downloaded`.
    Download { url: String, filename: String, repo_url: String },
    /// The operation is over, with this answer.
    Finish(Result<ModResult, ModError>),
}

/// The answer to a [`ManageStep`].
#[derive(Debug)]
pub enum ManageEvent {
    SettingsLoaded(Result<Settings, String>),
    Exists(bool),
    Checked(Result<(), ModError>),
    Markers { enabled: bool, enabling: bool },
    Written(Result<(), String>),
    Version(Result<String, ModError>),
    CommandDone(Result<ModResult, String>),
    Downloaded(Result<(), String>),
}

/// Enabling, disabling, deleting or updating one installed mod for one profile.
pub struct ManageFlow {
    command: Command,
    mod_name: String,
    profile_name: String,
    url: String,
    stage: ManageStage,
    settings: Settings,
    mod_dir: String,
    dcs_dir: String,
    version: String,
    was_enabled: bool,
    sideload_absent: bool,
    failure: Option<ModError>,
}

/// Whether `step` ends the operation successfully with `message`.
pub open spec fn ends_ok(step: ManageStep, message: Option<Seq<char>>) -> bool {
    step matches ManageStep::Finish(Ok(r)) && r.success && match message {
        Some(m) => r.message matches Some(x) && x@ == m,
        None => r.message is None,
    }
}

/// Whether `step` ends the operation with the error `e`.
pub open spec fn ends_err(step: ManageStep, e: ModError) -> bool {
    step == ManageStep::Finish(Err(e))
}

/// Whether `e` is the error of its kind with message `m`.
pub open spec fn settings_err(e: ModError, m: Seq<char>) -> bool {
    e matches ModError::SettingsError(x) && x@ == m
}

/// Whether `e` is an enablement error with message `m`.
pub open spec fn enablement_err(e: ModError, m: Seq<char>) -> bool {
    e matches ModError::EnablementError(x) && x@ == m
}

impl ManageFlow {
    pub closed spec fn command(&self) -> Command {
        self.command
    }

    /// The mod, the profile and (for an update) the download URL.
    pub closed spec fn request(&self) -> (Seq<char>, Seq<char>, Seq<char>) {
        (self.mod_name@, self.profile_name@, self.url@)
    }

    pub closed spec fn stage(&self) -> ManageStage {
        self.stage
    }

    pub closed spec fn current_settings(&self) -> Settings {
        self.settings
    }

    pub closed spec fn mod_dir(&self) -> String {
        self.mod_dir
    }

    pub closed spec fn dcs_dir(&self) -> Seq<char> {
        self.dcs_dir@
    }

    pub closed spec fn version(&self) -> Seq<char> {
        self.version@
    }

    pub closed spec fn was_enabled(&self) -> bool {
        self.was_enabled
    }

    /// Whether the mod was found absent from the sideload directory, or no
    /// sideload directory is set.
    pub closed spec fn sideload_clear(&self) -> bool {
        self.settings.sideload_path@.len() == 0 || self.sideload_absent
    }

    /// The outcome kept across the steps that follow it: that of processing
    /// the files when enabling, that of the download when updating.
    pub closed spec fn pending(&self) -> Result<(), ModError> {
        match self.failure {
            Some(e) => Err(e),
            None => Ok(()),
        }
    }

    /// Which stages each operation passes through; the enabled marker is
    /// written only after the mod's files were processed without error; a
    /// deleted or updated mod is never one of the sideload directory.
    pub closed spec fn inv(&self) -> bool {
        &&& match self.stage {
            ManageStage::DcsExists | ManageStage::WriteEnabling | ManageStage::Rollback
            | ManageStage::RemoveEnabling | ManageStage::WriteEnabled => self.command
                == Command::Enable,
            ManageStage::Verify | ManageStage::Version | ManageStage::Process => self.command
                == Command::Enable || self.command == Command::Disable,
            ManageStage::RemoveEnabled => self.command == Command::Disable,
            ManageStage::SideloadCheck | ManageStage::SubDisable => self.command == Command::Delete
                || self.command == Command::Update,
            ManageStage::RemoveDir => self.command == Command::Delete,
            ManageStage::Download | ManageStage::Reenable => self.command == Command::Update,
            _ => true,
        }
        &&& self.stage == ManageStage::WriteEnabled ==> self.failure is None
        &&& self.stage == ManageStage::Rollback ==> self.failure is Some
        &&& (self.command == Command::Delete || self.command == Command::Update) && manage_rank(
            self.stage,
        ) >= manage_rank(ManageStage::Markers) && self.stage != ManageStage::Done
            ==> self.sideload_clear()
        &&& self.stage == ManageStage::Reenable ==> self.was_enabled
    }

    fn begin(command: Command, mod_name: String, profile_name: String, url: String) -> (res: (
        ManageFlow,
        ManageStep,
    ))
        ensures
            res.0.command() == command,
            res.0.request() == (mod_name@, profile_name@, url@),
            res.0.stage() == ManageStage::Settings,
            res.0.inv(),
            res.1 is LoadSettings,
    {
        let flow = ManageFlow {
            command,
            mod_name,
            profile_name,
            url,
            stage: ManageStage::Settings,
            settings: Settings {
                dark_mode: crate::settings::DarkMode::System,
                download_path: String::new(),
                sideload_path: String::new(),
                profiles: Vec::new(),
                cached_xml_paths: Vec::new(),
            },
            mod_dir: String::new(),
            dcs_dir: String::new(),
            version: String::new(),
            was_enabled: false,
            sideload_absent: false,
            failure: None,
        };
        (flow, ManageStep::LoadSettings)
    }

    /// Enabling `mod_name` for `profile_name`: the mod's files are copied
    /// into the profile's game directory, between an enabling marker and an
    /// enabled marker. The first step loads the settings.
    pub fn enable_mod(mod_name: String, profile_name: String) -> (res: (ManageFlow, ManageStep))
        ensures
            res.0.command() == Command::Enable,
            res.0.request() == (mod_name@, profile_name@, Seq::<char>::empty()),
            res.0.stage() == ManageStage::Settings,
            res.0.inv(),
            res.1 is LoadSettings,
    {
        Self::begin(Command::Enable, mod_name, profile_name, String::new())
    }

    /// Disabling `mod_name` for `profile_name`: its files are taken out of
    /// the game directory and its enabled marker removed. The first step
    /// loads the settings.
    pub fn disable_mod(mod_name: String, profile_name: String) -> (res: (ManageFlow, ManageStep))
        ensures
            res.0.command() == Command::Disable,
            res.0.request() == (mod_name@, profile_name@, Seq::<char>::empty()),
            res.0.stage() == ManageStage::Settings,
            res.0.inv(),
            res.1 is LoadSettings,
    {
        Self::begin(Command::Disable, mod_name, profile_name, String::new())
    }

    /// Deleting the downloaded `mod_name` of `profile_name`'s repository,
    /// disabling it first when it is enabled. The first step loads the settings.
    pub fn delete_mod(mod_name: String, profile_name: String) -> (res: (ManageFlow, ManageStep))
        ensures
            res.0.command() == Command::Delete,
            res.0.request() == (mod_name@, profile_name@, Seq::<char>::empty()),
            res.0.stage() == ManageStage::Settings,
            res.0.inv(),
            res.1 is LoadSettings,
    {
        Self::begin(Command::Delete, mod_name, profile_name, String::new())
    }

    /// Updating the downloaded `mod_name` of `profile_name`'s repository
    /// from `url`: disabled first when enabled, downloaded again, and
    /// enabled again when it was. The first step loads the settings.
    pub fn update_mod(mod_name: String, profile_name: String, url: String) -> (res: (
        ManageFlow,
        ManageStep,
    ))
        ensures
            res.0.command() == Command::Update,
            res.0.request() == (mod_name@, profile_name@, url@),
            res.0.stage() == ManageStage::Settings,
            res.0.inv(),
            res.1 is LoadSettings,
    {
        Self::begin(Command::Update, mod_name, profile_name, url)
    }

    /// Whether the operation is waiting for an answer of the kind of `event`.
    pub open spec fn awaits(&self, event: ManageEvent) -> bool {
        match self.stage() {
            ManageStage::Settings => event is SettingsLoaded,
            ManageStage::DcsExists | ManageStage::SideloadCheck => event is Exists,
            ManageStage::Verify | ManageStage::Process | ManageStage::Rollback => event is Checked,
            ManageStage::Markers => event is Markers,
            ManageStage::WriteEnabling | ManageStage::RemoveEnabling | ManageStage::WriteEnabled
            | ManageStage::RemoveEnabled | ManageStage::RemoveDir => event is Written,
            ManageStage::Version => event is Version,
            ManageStage::SubDisable | ManageStage::Reenable => event is CommandDone,
            ManageStage::Download => event is Downloaded,
            ManageStage::Done => false,
        }
    }

    /// Whether the operation is waiting for an answer of the kind of `event`
    /// (see [`Self::awaits`]).
    pub fn accepts(&self, event: &ManageEvent) -> (res: bool)
        ensures
            res == self.awaits(*event),
    {
        match self.stage {
            ManageStage::Settings => matches!(event, ManageEvent::SettingsLoaded(_)),
            ManageStage::DcsExists | ManageStage::SideloadCheck => matches!(event, ManageEvent::Exists(_)),
            ManageStage::Verify | ManageStage::Process | ManageStage::Rollback => matches!(event, ManageEvent::Checked(_)),
            ManageStage::Markers => matches!(event, ManageEvent::Markers { .. }),
            ManageStage::WriteEnabling | ManageStage::RemoveEnabling | ManageStage::WriteEnabled
            | ManageStage::RemoveEnabled | ManageStage::RemoveDir => matches!(event, ManageEvent::Written(_)),
            ManageStage::Version => matches!(event, ManageEvent::Version(_)),
            ManageStage::SubDisable | ManageStage::Reenable => matches!(event, ManageEvent::CommandDone(_)),
            ManageStage::Download => matches!(event, ManageEvent::Downloaded(_)),
            ManageStage::Done => false,
        }
    }
}


/// The position of the first profile named `name`, if any.
pub open spec fn first_named(ps: Seq<crate::settings::Profile>, name: Seq<char>) -> Option<int> {
    if exists|i: int| is_first_named(ps, name, i) {
        Some(choose|i: int| is_first_named(ps, name, i))
    } else {
        None
    }
}

/// The step after looking for the mod's directory under `st`: the
/// operation ends with the error when it was not found; else the directory
/// is kept and its structure verified (when `verify`) or its markers
/// checked.
pub open spec fn after_locating(
    st: Settings,
    mod_name: Seq<char>,
    profile: Seq<char>,
    t: ManageFlow,
    step: ManageStep,
    verify: bool,
) -> bool {
    ||| step matches ManageStep::Finish(Err(e)) && located(st, mod_name, profile, Err(e))
    ||| located(st, mod_name, profile, Ok(t.mod_dir())) && if verify {
        t.stage() == ManageStage::Verify && (step matches ManageStep::VerifyStructure(d) && d@
            == t.mod_dir()@)
    } else {
        t.stage() == ManageStage::Markers && (step matches ManageStep::CheckMarkers {
            mod_dir,
            profile_name,
        } && mod_dir@ == t.mod_dir()@ && profile_name@ == profile)
    }
}

/// Whether `step` asks for the markers of the mod in the directory of `s`.
pub open spec fn checks_markers(s: ManageFlow, step: ManageStep) -> bool {
    step matches ManageStep::CheckMarkers { mod_dir, profile_name } && mod_dir@ == s.mod_dir()@
        && profile_name@ == s.request().1
}

/// Whether `step` writes `marker` in the directory of `s`.
pub open spec fn writes_marker(s: ManageFlow, step: ManageStep, marker: Marker) -> bool {
    step matches ManageStep::WriteMarker { mod_dir, profile_name, marker: k } && mod_dir@
        == s.mod_dir()@ && profile_name@ == s.request().1 && k == marker
}

/// Whether `step` removes `marker` from the directory of `s`.
pub open spec fn removes_marker(s: ManageFlow, step: ManageStep, marker: Marker) -> bool {
    step matches ManageStep::RemoveMarker { mod_dir, profile_name, marker: k } && mod_dir@
        == s.mod_dir()@ && profile_name@ == s.request().1 && k == marker
}

/// Whether `step` copies (or, when `remove`, takes out) the files of the
/// mod of `s` at `version`: those of its sub-directory named after the mod.
pub open spec fn processes(s: ManageFlow, step: ManageStep, version: Seq<char>, remove: bool) -> bool {
    step matches ManageStep::ProcessDirs { source, dcs_dir, mod_name, version: v, remove: r }
        && source@ == path_join(s.mod_dir()@, s.request().0) && dcs_dir@ == s.dcs_dir()
        && mod_name@ == s.request().0 && v@ == version && r == remove
}

/// Whether `step` runs `command` (enabling or disabling) as an operation of
/// its own for the mod and profile of `s`.
pub open spec fn runs(s: ManageFlow, step: ManageStep, command: Command) -> bool {
    match step {
        ManageStep::Disable { mod_name, profile_name } => command == Command::Disable
            && mod_name@ == s.request().0 && profile_name@ == s.request().1,
        ManageStep::Enable { mod_name, profile_name } => command == Command::Enable
            && mod_name@ == s.request().0 && profile_name@ == s.request().1,
        _ => false,
    }
}

/// The step an update takes to download the mod again: the archive
/// `<mod>.zip` from the update's URL for the profile's repository, or an
/// error when the profile is gone.
pub open spec fn downloads(s: ManageFlow, step: ManageStep) -> bool {
    let st = s.current_settings();
    match first_named(st.profiles@, s.request().1) {
        None => step matches ManageStep::Finish(Err(e)) && settings_err(
            e,
            "Profile '"@ + s.request().1 + "' not found for update"@,
        ),
        Some(i) => step matches ManageStep::Download { url, filename, repo_url } && url@
            == s.request().2 && filename@ == s.request().0 + ".zip"@ && repo_url@
            == st.profiles@[i].repo_url@,
    }
}

/// The step taken once the settings `st` are loaded, by the operations that
/// first look for the mod in the sideload directory (deleting, updating).
pub open spec fn sideload_first(s: ManageFlow, st: Settings, t: ManageFlow, step: ManageStep) -> bool {
    if st.sideload_path@.len() > 0 {
        t.stage() == ManageStage::SideloadCheck && (step matches ManageStep::CheckExists(d) && d@
            == path_join(st.sideload_path@, s.request().0))
    } else {
        after_locating(st, s.request().0, s.request().1, t, step, false)
    }
}

/// The step taken once the settings `st` are loaded by enabling (when
/// `enable`) or disabling: the profile is looked up, then the game
/// directory checked (enabling) or the mod looked for (disabling).
pub open spec fn profile_first(
    mod_name: Seq<char>,
    profile: Seq<char>,
    st: Settings,
    t: ManageFlow,
    step: ManageStep,
    enable: bool,
) -> bool {
    match first_named(st.profiles@, profile) {
        None => step matches ManageStep::Finish(Err(e)) && settings_err(e, "Profile not found"@),
        Some(i) => t.dcs_dir() == st.profiles@[i].dcs_path@ && if enable {
            t.stage() == ManageStage::DcsExists && (step matches ManageStep::CheckExists(d) && d@
                == st.profiles@[i].dcs_path@)
        } else {
            after_locating(st, mod_name, profile, t, step, true)
        },
    }
}

/// How enabling goes on from `s`, answered with `event`, to `t` with `step`.
pub open spec fn enable_next(s: ManageFlow, event: ManageEvent, t: ManageFlow, step: ManageStep) -> bool {
    match s.stage() {
        ManageStage::Settings => match event {
            ManageEvent::SettingsLoaded(Err(e)) => ends_err(step, ModError::SettingsError(e)),
            ManageEvent::SettingsLoaded(Ok(st)) => t.current_settings() == st && profile_first(
                s.request().0,
                s.request().1,
                st,
                t,
                step,
                true,
            ),
            _ => false,
        },
        ManageStage::DcsExists => match event {
            ManageEvent::Exists(false) => step matches ManageStep::Finish(
                Err(ModError::DirectoryStructureError(m)),
            ) && m@ == "DCS path does not exist"@,
            _ => after_locating(s.current_settings(), s.request().0, s.request().1, t, step, true),
        },
        ManageStage::Verify => match event {
            ManageEvent::Checked(Err(e)) => ends_err(step, e),
            _ => checks_markers(s, step),
        },
        ManageStage::Markers => match event {
            ManageEvent::Markers { enabled, enabling } => if enabled {
                ends_ok(step, Some("Mod already enabled"@))
            } else if enabling {
                step matches ManageStep::Finish(Err(e)) && enablement_err(
                    e,
                    "Mod is currently being enabled"@,
                )
            } else {
                writes_marker(s, step, Marker::Enabling)
            },
            _ => false,
        },
        ManageStage::WriteEnabling => match event {
            ManageEvent::Written(Err(e)) => ends_err(step, ModError::IoError(e)),
            _ => step matches ManageStep::ReadVersion(d) && d@ == s.mod_dir()@,
        },
        ManageStage::Version => match event {
            ManageEvent::Version(Err(e)) => ends_err(step, e),
            ManageEvent::Version(Ok(v)) => t.version() == v@ && processes(s, step, v@, false),
            _ => false,
        },
        ManageStage::Process => match event {
            ManageEvent::Checked(Err(e)) => t.pending() == Err::<(), ModError>(e) && processes(
                s,
                step,
                s.version(),
                true,
            ),
            ManageEvent::Checked(Ok(_)) => t.pending() is Ok && removes_marker(
                s,
                step,
                Marker::Enabling,
            ),
            _ => false,
        },
        ManageStage::Rollback => removes_marker(s, step, Marker::Enabling) && t.pending()
            == s.pending(),
        ManageStage::RemoveEnabling => match s.pending() {
            Err(e) => ends_err(step, e),
            Ok(_) => writes_marker(s, step, Marker::Enabled),
        },
        ManageStage::WriteEnabled => match event {
            ManageEvent::Written(Err(e)) => ends_err(step, ModError::IoError(e)),
            _ => ends_ok(step, None),
        },
        _ => false,
    }
}

/// How disabling goes on from `s`, answered with `event`, to `t` with `step`.
pub open spec fn disable_next(s: ManageFlow, event: ManageEvent, t: ManageFlow, step: ManageStep) -> bool {
    match s.stage() {
        ManageStage::Settings => match event {
            ManageEvent::SettingsLoaded(Err(e)) => ends_err(step, ModError::SettingsError(e)),
            ManageEvent::SettingsLoaded(Ok(st)) => t.current_settings() == st && profile_first(
                s.request().0,
                s.request().1,
                st,
                t,
                step,
                false,
            ),
            _ => false,
        },
        ManageStage::Verify => match event {
            ManageEvent::Checked(Err(e)) => ends_err(step, e),
            _ => checks_markers(s, step),
        },
        ManageStage::Markers => match event {
            ManageEvent::Markers { enabled, enabling } => if enabled {
                step matches ManageStep::ReadVersion(d) && d@ == s.mod_dir()@
            } else {
                ends_ok(step, Some("Mod already disabled"@))
            },
            _ => false,
        },
        ManageStage::Version => match event {
            ManageEvent::Version(Err(e)) => ends_err(step, e),
            ManageEvent::Version(Ok(v)) => t.version() == v@ && processes(s, step, v@, true),
            _ => false,
        },
        ManageStage::Process => match event {
            ManageEvent::Checked(Err(e)) => ends_err(step, e),
            _ => removes_marker(s, step, Marker::Enabled),
        },
        ManageStage::RemoveEnabled => match event {
            ManageEvent::Written(Err(e)) => ends_err(step, ModError::IoError(e)),
            _ => ends_ok(step, None),
        },
        _ => false,
    }
}

/// How deleting goes on from `s`, answered with `event`, to `t` with `step`.
pub open spec fn delete_next(s: ManageFlow, event: ManageEvent, t: ManageFlow, step: ManageStep) -> bool {
    match s.stage() {
        ManageStage::Settings => match event {
            ManageEvent::SettingsLoaded(Err(e)) => ends_err(step, ModError::SettingsError(e)),
            ManageEvent::SettingsLoaded(Ok(st)) => t.current_settings() == st && sideload_first(
                s,
                st,
                t,
                step,
            ),
            _ => false,
        },
        ManageStage::SideloadCheck => match event {
            ManageEvent::Exists(true) => step matches ManageStep::Finish(Err(e)) && enablement_err(
                e,
                "Cannot delete sideloaded mods"@,
            ),
            _ => after_locating(s.current_settings(), s.request().0, s.request().1, t, step, false),
        },
        ManageStage::Markers => match event {
            ManageEvent::Markers { enabled, enabling } => if enabled {
                runs(s, step, Command::Disable)
            } else {
                step matches ManageStep::RemoveDirectory(d) && d@ == s.mod_dir()@
            },
            _ => false,
        },
        ManageStage::SubDisable => match event {
            ManageEvent::CommandDone(Err(m)) => ends_err(step, ModError::EnablementError(m)),
            _ => step matches ManageStep::RemoveDirectory(d) && d@ == s.mod_dir()@,
        },
        ManageStage::RemoveDir => match event {
            ManageEvent::Written(Err(e)) => ends_err(step, ModError::IoError(e)),
            _ => ends_ok(step, Some("Mod deleted successfully"@)),
        },
        _ => false,
    }
}

/// How updating goes on from `s`, answered with `event`, to `t` with `step`.
pub open spec fn update_next(s: ManageFlow, event: ManageEvent, t: ManageFlow, step: ManageStep) -> bool {
    match s.stage() {
        ManageStage::Settings => match event {
            ManageEvent::SettingsLoaded(Err(e)) => ends_err(step, ModError::SettingsError(e)),
            ManageEvent::SettingsLoaded(Ok(st)) => t.current_settings() == st && sideload_first(
                s,
                st,
                t,
                step,
            ),
            _ => false,
        },
        ManageStage::SideloadCheck => match event {
            ManageEvent::Exists(true) => step matches ManageStep::Finish(Err(e)) && enablement_err(
                e,
                "Cannot update sideloaded mods"@,
            ),
            _ => after_locating(s.current_settings(), s.request().0, s.request().1, t, step, false),
        },
        ManageStage::Markers => match event {
            ManageEvent::Markers { enabled, enabling } => t.was_enabled() == enabled && if enabling {
                step matches ManageStep::Finish(Err(e)) && enablement_err(
                    e,
                    "Cannot update mod while it is being enabled"@,
                )
            } else if enabled {
                runs(s, step, Command::Disable)
            } else {
                downloads(s, step)
            },
            _ => false,
        },
        ManageStage::SubDisable => match event {
            ManageEvent::CommandDone(Err(m)) => ends_err(step, ModError::EnablementError(m)),
            _ => downloads(s, step),
        },
        ManageStage::Download => match event {
            ManageEvent::Downloaded(r) => if s.was_enabled() {
                runs(s, step, Command::Enable) && match r {
                    Ok(_) => t.pending() is Ok,
                    Err(e) => t.pending() == Err::<(), ModError>(ModError::DownloadError(e)),
                }
            } else {
                match r {
                    Ok(_) => ends_ok(step, Some("Mod updated successfully"@)),
                    Err(e) => ends_err(step, ModError::DownloadError(e)),
                }
            },
            _ => false,
        },
        ManageStage::Reenable => match s.pending() {
            Err(e) => ends_err(step, e),
            Ok(_) => match event {
                ManageEvent::CommandDone(Err(m)) => ends_err(step, ModError::EnablementError(m)),
                _ => ends_ok(step, Some("Mod updated successfully"@)),
            },
        },
        _ => false,
    }
}

/// Whether the directory, game directory and settings the operation works
/// on are the same in `t` as in `s`.
pub open spec fn keeps_target(s: ManageFlow, t: ManageFlow) -> bool {
    &&& t.current_settings() == s.current_settings()
    &&& t.mod_dir() == s.mod_dir()
    &&& t.dcs_dir() == s.dcs_dir()
}

/// The stage at which operation `command` waits for the answer to `step`.
pub open spec fn awaiting_stage(command: Command, step: ManageStep) -> ManageStage {
    match step {
        ManageStep::LoadSettings => ManageStage::Settings,
        ManageStep::CheckExists(_) => if command == Command::Enable {
            ManageStage::DcsExists
        } else {
            ManageStage::SideloadCheck
        },
        ManageStep::VerifyStructure(_) => ManageStage::Verify,
        ManageStep::CheckMarkers { .. } => ManageStage::Markers,
        ManageStep::WriteMarker { marker, .. } => if marker == Marker::Enabling {
            ManageStage::WriteEnabling
        } else {
            ManageStage::WriteEnabled
        },
        ManageStep::RemoveMarker { marker, .. } => if marker == Marker::Enabling {
            ManageStage::RemoveEnabling
        } else {
            ManageStage::RemoveEnabled
        },
        ManageStep::ReadVersion(_) => ManageStage::Version,
        ManageStep::ProcessDirs { remove, .. } => if command == Command::Enable && remove {
            ManageStage::Rollback
        } else {
            ManageStage::Process
        },
        ManageStep::RemoveDirectory(_) => ManageStage::RemoveDir,
        ManageStep::Disable { .. } => ManageStage::SubDisable,
        ManageStep::Enable { .. } => ManageStage::Reenable,
        ManageStep::Download { .. } => ManageStage::Download,
        ManageStep::Finish(_) => ManageStage::Done,
    }
}

/// What every step of an operation keeps: the operation and its request,
/// its invariant, and its progress through the stages, waiting next at the
/// stage that answers the step it returns.
pub open spec fn moves_on(s: ManageFlow, t: ManageFlow, step: ManageStep) -> bool {
    &&& t.inv()
    &&& t.command() == s.command()
    &&& t.request() == s.request()
    &&& manage_rank(t.stage()) > manage_rank(s.stage())
    &&& t.stage() == awaiting_stage(s.command(), step)
    &&& (step is Finish) == (t.stage() == ManageStage::Done)
    &&& !(s.stage() == ManageStage::Settings || s.stage() == ManageStage::DcsExists || s.stage()
        == ManageStage::SideloadCheck) ==> keeps_target(s, t)
}


/// Only one position can be the first with a given name.
proof fn lemma_first_named_unique(ps: Seq<crate::settings::Profile>, name: Seq<char>, i: int, k: int)
    requires
        is_first_named(ps, name, i),
        is_first_named(ps, name, k),
    ensures
        i == k,
{
    if i < k {
        assert(ps[i].name@ != name);
    }
    if k < i {
        assert(ps[k].name@ != name);
    }
}

impl ManageFlow {
    /// Whether `t` holds the same data as `self`, the stage and the mod
    /// directory aside.
    spec fn same_data(&self, t: ManageFlow) -> bool {
        &&& t.command == self.command
        &&& t.mod_name == self.mod_name
        &&& t.profile_name == self.profile_name
        &&& t.url == self.url
        &&& t.settings == self.settings
        &&& t.dcs_dir == self.dcs_dir
        &&& t.version == self.version
        &&& t.was_enabled == self.was_enabled
        &&& t.sideload_absent == self.sideload_absent
        &&& t.failure == self.failure
    }

    fn finish(&mut self, r: Result<ModResult, ModError>) -> (step: ManageStep)
        ensures
            final(self).stage == ManageStage::Done,
            step == ManageStep::Finish(r),
            old(self).same_data(*final(self)),
            final(self).mod_dir == old(self).mod_dir,
    {
        self.stage = ManageStage::Done;
        ManageStep::Finish(r)
    }

    /// Looks for the mod's directory, then verifies its structure (when
    /// `verify`) or checks its markers.
    fn locate(&mut self, verify: bool) -> (step: ManageStep)
        ensures
            after_locating(
                old(self).settings,
                old(self).mod_name@,
                old(self).profile_name@,
                *final(self),
                step,
                verify,
            ),
            old(self).same_data(*final(self)),
            (step is Finish) == (final(self).stage == ManageStage::Done),
            step is Finish || final(self).stage == ManageStage::Verify || final(self).stage
                == ManageStage::Markers,
    {
        match find_mod_dir(&self.settings, self.mod_name.as_str(), self.profile_name.as_str()) {
            Err(e) => self.finish(Err(e)),
            Ok(d) => {
                self.mod_dir = d;
                if verify {
                    self.stage = ManageStage::Verify;
                    ManageStep::VerifyStructure(self.mod_dir.clone())
                } else {
                    self.stage = ManageStage::Markers;
                    self.marker_step()
                }
            },
        }
    }

    fn marker_step(&self) -> (step: ManageStep)
        ensures
            checks_markers(*self, step),
    {
        ManageStep::CheckMarkers { mod_dir: self.mod_dir.clone(), profile_name: self.profile_name.clone() }
    }

    fn write_step(&self, marker: Marker) -> (step: ManageStep)
        ensures
            writes_marker(*self, step, marker),
    {
        ManageStep::WriteMarker {
            mod_dir: self.mod_dir.clone(),
            profile_name: self.profile_name.clone(),
            marker,
        }
    }

    fn remove_step(&self, marker: Marker) -> (step: ManageStep)
        ensures
            removes_marker(*self, step, marker),
    {
        ManageStep::RemoveMarker {
            mod_dir: self.mod_dir.clone(),
            profile_name: self.profile_name.clone(),
            marker,
        }
    }

    fn process_step(&self, remove: bool) -> (step: ManageStep)
        ensures
            processes(*self, step, self.version@, remove),
    {
        ManageStep::ProcessDirs {
            source: join_path(self.mod_dir.as_str(), self.mod_name.as_str()),
            dcs_dir: self.dcs_dir.clone(),
            mod_name: self.mod_name.clone(),
            version: self.version.clone(),
            remove,
        }
    }

    fn run_step(&self, command: Command) -> (step: ManageStep)
        requires
            command == Command::Enable || command == Command::Disable,
        ensures
            runs(*self, step, command),
    {
        if command == Command::Enable {
            ManageStep::Enable { mod_name: self.mod_name.clone(), profile_name: self.profile_name.clone() }
        } else {
            ManageStep::Disable { mod_name: self.mod_name.clone(), profile_name: self.profile_name.clone() }
        }
    }

    /// Position of the profile of the operation in its settings, if any.
    fn find_profile(&self) -> (res: Option<usize>)
        ensures
            res matches Some(i) ==> first_named(self.settings.profiles@, self.profile_name@) == Some(
                i as int,
            ),
            res is None ==> first_named(self.settings.profiles@, self.profile_name@) is None,
    {
        let found = self.settings.profile_index_by_name(self.profile_name.as_str());
        match found {
            None => {
                proof {
                    assert forall|k: int| !is_first_named(self.settings.profiles@, self.profile_name@, k) by {
                        if 0 <= k < self.settings.profiles@.len() {
                            assert(self.settings.profiles@[k].name@ != self.profile_name@);
                        }
                    }
                }
            },
            Some(i) => {
                proof {
                    let k = choose|k: int| is_first_named(self.settings.profiles@, self.profile_name@, k);
                    lemma_first_named_unique(self.settings.profiles@, self.profile_name@, i as int, k);
                }
            },
        }
        found
    }

    /// The download of an update, or its end when the profile is gone.
    fn download_step(&mut self) -> (step: ManageStep)
        ensures
            downloads(*old(self), step),
            old(self).same_data(*final(self)),
            final(self).mod_dir == old(self).mod_dir,
            step is Finish ==> final(self).stage == ManageStage::Done,
            !(step is Finish) ==> final(self).stage == ManageStage::Download,
    {
        match self.find_profile() {
            None => {
                let m = concat_text3("Profile '", self.profile_name.as_str(), "' not found for update");
                self.finish(Err(ModError::SettingsError(m)))
            },
            Some(i) => {
                self.stage = ManageStage::Download;
                ManageStep::Download {
                    url: self.url.clone(),
                    filename: update_filename(self.mod_name.as_str()),
                    repo_url: self.settings.profiles[i].repo_url.clone(),
                }
            },
        }
    }

    /// Looks up the profile in the loaded settings; then checks the game
    /// directory (when `enable`) or looks for the mod.
    fn after_settings(&mut self, enable: bool) -> (step: ManageStep)
        ensures
            profile_first(
                old(self).mod_name@,
                old(self).profile_name@,
                old(self).settings,
                *final(self),
                step,
                enable,
            ),
            final(self).settings == old(self).settings,
            final(self).command == old(self).command,
            final(self).mod_name == old(self).mod_name,
            final(self).profile_name == old(self).profile_name,
            final(self).url == old(self).url,
            final(self).failure == old(self).failure,
            (step is Finish) == (final(self).stage == ManageStage::Done),
            step is Finish || final(self).stage == ManageStage::Verify || final(self).stage
                == ManageStage::DcsExists,
            enable ==> final(self).stage != ManageStage::Verify,
            !enable ==> final(self).stage != ManageStage::DcsExists,
    {
        match self.find_profile() {
            None => {
                self.finish(Err(ModError::SettingsError(owned("Profile not found"))))
            },
            Some(i) => {
                self.dcs_dir = self.settings.profiles[i].dcs_path.clone();
                if enable {
                    self.stage = ManageStage::DcsExists;
                    ManageStep::CheckExists(self.dcs_dir.clone())
                } else {
                    self.locate(true)
                }
            },
        }
    }

    /// Checks the sideload directory for the mod when one is set; else
    /// looks for the mod.
    fn sideload_step(&mut self) -> (step: ManageStep)
        ensures
            sideload_first(*old(self), old(self).settings, *final(self), step),
            old(self).same_data(*final(self)),
            (step is Finish) == (final(self).stage == ManageStage::Done),
            step is Finish || final(self).stage == ManageStage::SideloadCheck || final(self).stage
                == ManageStage::Markers,
            final(self).stage == ManageStage::Markers ==> final(self).settings.sideload_path@.len()
                == 0,
    {
        if !self.settings.sideload_path.as_str().is_empty() {
            self.stage = ManageStage::SideloadCheck;
            ManageStep::CheckExists(join_path(self.settings.sideload_path.as_str(), self.mod_name.as_str()))
        } else {
            self.locate(false)
        }
    }
}


impl ManageFlow {
    fn resume_enable(&mut self, event: ManageEvent) -> (step: ManageStep)
        requires
            old(self).inv(),
            old(self).awaits(event),
            old(self).command() == Command::Enable,
        ensures
            enable_next(*old(self), event, *final(self), step),
            moves_on(*old(self), *final(self), step),
    {
        match self.stage {
            ManageStage::Settings => match event {
                ManageEvent::SettingsLoaded(Err(e)) => self.finish(Err(ModError::SettingsError(e))),
                ManageEvent::SettingsLoaded(Ok(st)) => {
                    self.settings = st;
                    self.after_settings(true)
                },
                _ => unreached(),
            },
            ManageStage::DcsExists => match event {
                ManageEvent::Exists(false) => self.finish(
                    Err(ModError::DirectoryStructureError(owned("DCS path does not exist"))),
                ),
                _ => self.locate(true),
            },
            ManageStage::Verify => match event {
                ManageEvent::Checked(Err(e)) => self.finish(Err(e)),
                _ => {
                    self.stage = ManageStage::Markers;
                    self.marker_step()
                },
            },
            ManageStage::Markers => match event {
                ManageEvent::Markers { enabled, enabling } => match enable_early_answer(
                    enable_start(enabled, enabling),
                ) {
                    Some(answer) => self.finish(answer),
                    None => {
                        self.stage = ManageStage::WriteEnabling;
                        self.write_step(Marker::Enabling)
                    },
                },
                _ => unreached(),
            },
            ManageStage::WriteEnabling => match event {
                ManageEvent::Written(Err(e)) => self.finish(Err(ModError::IoError(e))),
                _ => {
                    self.stage = ManageStage::Version;
                    ManageStep::ReadVersion(self.mod_dir.clone())
                },
            },
            ManageStage::Version => match event {
                ManageEvent::Version(Err(e)) => self.finish(Err(e)),
                ManageEvent::Version(Ok(v)) => {
                    self.version = v;
                    self.stage = ManageStage::Process;
                    self.process_step(false)
                },
                _ => unreached(),
            },
            ManageStage::Process => match event {
                ManageEvent::Checked(Err(e)) => {
                    self.failure = Some(e);
                    self.stage = ManageStage::Rollback;
                    self.process_step(true)
                },
                ManageEvent::Checked(Ok(())) => {
                    self.failure = None;
                    self.stage = ManageStage::RemoveEnabling;
                    let step = self.remove_step(Marker::Enabling);
                    step
                },
                _ => unreached(),
            },
            ManageStage::Rollback => {
                self.stage = ManageStage::RemoveEnabling;
                self.remove_step(Marker::Enabling)
            },
            ManageStage::RemoveEnabling => match self.failure.take() {
                Some(e) => self.finish(Err(e)),
                None => {
                    self.stage = ManageStage::WriteEnabled;
                    self.write_step(Marker::Enabled)
                },
            },
            ManageStage::WriteEnabled => match event {
                ManageEvent::Written(Err(e)) => self.finish(Err(ModError::IoError(e))),
                _ => self.finish(Ok(ModResult::succeeded(None))),
            },
            _ => unreached(),
        }
    }

    fn resume_disable(&mut self, event: ManageEvent) -> (step: ManageStep)
        requires
            old(self).inv(),
            old(self).awaits(event),
            old(self).command() == Command::Disable,
        ensures
            disable_next(*old(self), event, *final(self), step),
            moves_on(*old(self), *final(self), step),
    {
        match self.stage {
            ManageStage::Settings => match event {
                ManageEvent::SettingsLoaded(Err(e)) => self.finish(Err(ModError::SettingsError(e))),
                ManageEvent::SettingsLoaded(Ok(st)) => {
                    self.settings = st;
                    self.after_settings(false)
                },
                _ => unreached(),
            },
            ManageStage::Verify => match event {
                ManageEvent::Checked(Err(e)) => self.finish(Err(e)),
                _ => {
                    self.stage = ManageStage::Markers;
                    self.marker_step()
                },
            },
            ManageStage::Markers => match event {
                ManageEvent::Markers { enabled, enabling } => match disable_early_answer(enabled) {
                    Some(answer) => self.finish(Ok(answer)),
                    None => {
                        self.stage = ManageStage::Version;
                        ManageStep::ReadVersion(self.mod_dir.clone())
                    },
                },
                _ => unreached(),
            },
            ManageStage::Version => match event {
                ManageEvent::Version(Err(e)) => self.finish(Err(e)),
                ManageEvent::Version(Ok(v)) => {
                    self.version = v;
                    self.stage = ManageStage::Process;
                    self.process_step(true)
                },
                _ => unreached(),
            },
            ManageStage::Process => match event {
                ManageEvent::Checked(Err(e)) => self.finish(Err(e)),
                _ => {
                    self.stage = ManageStage::RemoveEnabled;
                    self.remove_step(Marker::Enabled)
                },
            },
            ManageStage::RemoveEnabled => match event {
                ManageEvent::Written(Err(e)) => self.finish(Err(ModError::IoError(e))),
                _ => self.finish(Ok(ModResult::succeeded(None))),
            },
            _ => unreached(),
        }
    }

    fn resume_delete(&mut self, event: ManageEvent) -> (step: ManageStep)
        requires
            old(self).inv(),
            old(self).awaits(event),
            old(self).command() == Command::Delete,
        ensures
            delete_next(*old(self), event, *final(self), step),
            moves_on(*old(self), *final(self), step),
    {
        match self.stage {
            ManageStage::Settings => match event {
                ManageEvent::SettingsLoaded(Err(e)) => self.finish(Err(ModError::SettingsError(e))),
                ManageEvent::SettingsLoaded(Ok(st)) => {
                    self.settings = st;
                    self.sideload_step()
                },
                _ => unreached(),
            },
            ManageStage::SideloadCheck => match event {
                ManageEvent::Exists(true) => self.finish(
                    Err(ModError::EnablementError(owned("Cannot delete sideloaded mods"))),
                ),
                _ => {
                    self.sideload_absent = true;
                    self.locate(false)
                },
            },
            ManageStage::Markers => match event {
                ManageEvent::Markers { enabled, enabling } => if enabled {
                    self.stage = ManageStage::SubDisable;
                    self.run_step(Command::Disable)
                } else {
                    self.stage = ManageStage::RemoveDir;
                    ManageStep::RemoveDirectory(self.mod_dir.clone())
                },
                _ => unreached(),
            },
            ManageStage::SubDisable => match event {
                ManageEvent::CommandDone(Err(m)) => self.finish(Err(ModError::EnablementError(m))),
                _ => {
                    self.stage = ManageStage::RemoveDir;
                    ManageStep::RemoveDirectory(self.mod_dir.clone())
                },
            },
            ManageStage::RemoveDir => match event {
                ManageEvent::Written(Err(e)) => self.finish(Err(ModError::IoError(e))),
                _ => self.finish(Ok(ModResult::succeeded(Some("Mod deleted successfully")))),
            },
            _ => unreached(),
        }
    }

    fn resume_update(&mut self, event: ManageEvent) -> (step: ManageStep)
        requires
            old(self).inv(),
            old(self).awaits(event),
            old(self).command() == Command::Update,
        ensures
            update_next(*old(self), event, *final(self), step),
            moves_on(*old(self), *final(self), step),
    {
        match self.stage {
            ManageStage::Settings => match event {
                ManageEvent::SettingsLoaded(Err(e)) => self.finish(Err(ModError::SettingsError(e))),
                ManageEvent::SettingsLoaded(Ok(st)) => {
                    self.settings = st;
                    self.sideload_step()
                },
                _ => unreached(),
            },
            ManageStage::SideloadCheck => match event {
                ManageEvent::Exists(true) => self.finish(
                    Err(ModError::EnablementError(owned("Cannot update sideloaded mods"))),
                ),
                _ => {
                    self.sideload_absent = true;
                    self.locate(false)
                },
            },
            ManageStage::Markers => match event {
                ManageEvent::Markers { enabled, enabling } => {
                    self.was_enabled = enabled;
                    match update_enabling_check(enabling) {
                        Err(e) => self.finish(Err(e)),
                        Ok(()) => if enabled {
                            self.stage = ManageStage::SubDisable;
                            self.run_step(Command::Disable)
                        } else {
                            self.download_step()
                        },
                    }
                },
                _ => unreached(),
            },
            ManageStage::SubDisable => match event {
                ManageEvent::CommandDone(Err(m)) => self.finish(Err(ModError::EnablementError(m))),
                _ => self.download_step(),
            },
            ManageStage::Download => match event {
                ManageEvent::Downloaded(r) => if self.was_enabled {
                    self.failure = match r {
                        Ok(()) => None,
                        Err(e) => Some(ModError::DownloadError(e)),
                    };
                    self.stage = ManageStage::Reenable;
                    self.run_step(Command::Enable)
                } else {
                    match r {
                        Ok(()) => self.finish(Ok(ModResult::succeeded(Some("Mod updated successfully")))),
                        Err(e) => self.finish(Err(ModError::DownloadError(e))),
                    }
                },
                _ => unreached(),
            },
            ManageStage::Reenable => match self.failure.take() {
                Some(e) => self.finish(Err(e)),
                None => match event {
                    ManageEvent::CommandDone(Err(m)) => self.finish(Err(ModError::EnablementError(m))),
                    _ => self.finish(Ok(ModResult::succeeded(Some("Mod updated successfully")))),
                },
            },
            _ => unreached(),
        }
    }
}


impl ManageFlow {
    /// Continues the operation with the answer to its last step and returns
    /// the next step (see [`enable_next`], [`disable_next`], [`delete_next`]
    /// and [`update_next`] for each operation).
    ///
    /// Enabling writes the enabled marker only once the mod's files were
    /// processed without error, and removes the enabling marker once it
    /// processed them, whatever the outcome. A mod's directory is removed
    /// only by deleting, and only when the mod is not one of the sideload
    /// directory; likewise only such a mod is downloaded again by updating.
    /// An update is refused while the mod's enabling marker exists; an
    /// update of a mod that was enabled enables it again after the
    /// download, whether the download succeeded or not.
    pub fn resume(&mut self, event: ManageEvent) -> (step: ManageStep)
        requires
            old(self).inv(),
            old(self).awaits(event),
        ensures
            moves_on(*old(self), *final(self), step),
            match old(self).command() {
                Command::Enable => enable_next(*old(self), event, *final(self), step),
                Command::Disable => disable_next(*old(self), event, *final(self), step),
                Command::Delete => delete_next(*old(self), event, *final(self), step),
                Command::Update => update_next(*old(self), event, *final(self), step),
            },
            (step matches ManageStep::WriteMarker { mod_dir, profile_name, marker } && marker
                == Marker::Enabled) ==> old(self).stage() == ManageStage::RemoveEnabling
                && old(self).pending() is Ok,
            old(self).stage() == ManageStage::Process && old(self).command() == Command::Enable
                ==> (processes(*old(self), step, old(self).version(), true) || removes_marker(
                *old(self),
                step,
                Marker::Enabling,
            )),
            old(self).stage() == ManageStage::Rollback ==> removes_marker(
                *old(self),
                step,
                Marker::Enabling,
            ),
            step is RemoveDirectory ==> old(self).command() == Command::Delete
                && final(self).sideload_clear(),
            step is Download ==> old(self).command() == Command::Update
                && final(self).sideload_clear(),
            old(self).stage() == ManageStage::Download && old(self).was_enabled() ==> runs(
                *old(self),
                step,
                Command::Enable,
            ),
            // a deletion succeeds only once the removal of the mod's directory
            // succeeded, and removes the directory of a mod that is not enabled
            old(self).command() == Command::Delete && (step matches ManageStep::Finish(Ok(_)))
                ==> old(self).stage() == ManageStage::RemoveDir && (event matches ManageEvent::Written(
                Ok(_),
            )),
            old(self).command() == Command::Delete && old(self).stage() == ManageStage::Markers && (
            event matches ManageEvent::Markers { enabled, enabling } && !enabled) ==> (
            step matches ManageStep::RemoveDirectory(d) && d@ == old(self).mod_dir()@),
    {
        match self.command {
            Command::Enable => self.resume_enable(event),
            Command::Disable => self.resume_disable(event),
            Command::Delete => self.resume_delete(event),
            Command::Update => self.resume_update(event),
        }
    }
}

/// Every operation reaches its end: each step moves it to a later stage,
/// and no stage comes after the last.
pub proof fn lemma_manage_rank_bounded(s: ManageStage)
    ensures
        0 <= manage_rank(s) <= manage_rank(ManageStage::Done),
        manage_rank(s) == manage_rank(ManageStage::Done) ==> s == ManageStage::Done,
{
}


/// Enabling twice changes nothing the second time: an enabling succeeds
/// (with no message) only when its last answer was that the enabled marker
/// was written; and an enabling that then finds that marker answers "Mod
/// already enabled" and ends, writing no marker and copying no file.
pub proof fn lemma_enable_twice(
    first: ManageFlow,
    last_answer: ManageEvent,
    first_after: ManageFlow,
    first_step: ManageStep,
    second: ManageFlow,
    enabling: bool,
    second_after: ManageFlow,
    second_step: ManageStep,
)
    requires
        first.command() == Command::Enable,
        first.awaits(last_answer),
        enable_next(first, last_answer, first_after, first_step),
        ends_ok(first_step, None),
        second.command() == Command::Enable,
        second.stage() == ManageStage::Markers,
        enable_next(
            second,
            ManageEvent::Markers { enabled: true, enabling },
            second_after,
            second_step,
        ),
    ensures
        first.stage() == ManageStage::WriteEnabled,
        last_answer matches ManageEvent::Written(Ok(_)),
        ends_ok(second_step, Some("Mod already enabled"@)),
        !(second_step is WriteMarker) && !(second_step is ProcessDirs),
{
}


/// Deleting removes the mod: a deletion ends successfully only on the
/// answer that the removal of the mod's directory succeeded, and once the
/// markers show the mod is not enabled its next step is the removal of its
/// directory; a mod that is enabled is disabled first.
pub proof fn lemma_delete_removes_directory(
    s: ManageFlow,
    event: ManageEvent,
    t: ManageFlow,
    step: ManageStep,
)
    requires
        s.command() == Command::Delete,
        s.awaits(event),
        delete_next(s, event, t, step),
    ensures
        step matches ManageStep::Finish(Ok(r)) ==> s.stage() == ManageStage::RemoveDir && (
        event matches ManageEvent::Written(Ok(_))) && r.success,
        s.stage() == ManageStage::Markers ==> (event matches ManageEvent::Markers { enabled, enabling }
            ==> if enabled {
            step matches ManageStep::Disable { mod_name, profile_name } && mod_name@ == s.request().0
                && profile_name@ == s.request().1
        } else {
            step matches ManageStep::RemoveDirectory(d) && d@ == s.mod_dir()@
        }),
        step matches ManageStep::RemoveDirectory(d) ==> d@ == s.mod_dir()@,
{
}

/// Disabling takes the mod out: a disabling ends successfully without a
/// message only on the answer that its enabled marker was removed, which it
/// asks for only after the mod's files were taken out without error.
pub proof fn lemma_disable_removes_marker_last(
    s: ManageFlow,
    event: ManageEvent,
    t: ManageFlow,
    step: ManageStep,
)
    requires
        s.command() == Command::Disable,
        s.awaits(event),
        disable_next(s, event, t, step),
    ensures
        step matches ManageStep::Finish(Ok(r)) && r.message is None ==> s.stage()
            == ManageStage::RemoveEnabled && (event matches ManageEvent::Written(Ok(_))),
        (step matches ManageStep::RemoveMarker { mod_dir, profile_name, marker }) ==> s.stage()
            == ManageStage::Process && (event matches ManageEvent::Checked(Ok(_))),
{
}

} // verus!
