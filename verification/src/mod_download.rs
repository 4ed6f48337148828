//! Downloading one mod: where it goes, how a finished download is
//! recognised, and the sequence of work a download performs, with the
//! checks that decide when it stops.

use crate::layout::{is_layout, mod_name_of, DownloadLayout};
use crate::paths::{path_exists, path_is_dir, join_path, path_join};
use crate::text::{concat_text, concat_text3, decimal, decimal_string, owned};
use vstd::prelude::*;

verus! {

/// Whether a mod counts as downloaded from what is on disk: its directory
/// exists and its archive does not (an archive left behind means the
/// download or its extraction did not finish).
pub open spec fn downloaded(zip_exists: bool, dir_is_dir: bool) -> bool {
    !zip_exists && dir_is_dir
}

/// Decides whether a mod counts as downloaded (see [`downloaded`]).
pub fn download_outcome(zip_exists: bool, dir_is_dir: bool) -> (res: bool)
    ensures
        res == downloaded(zip_exists, dir_is_dir),
{
    match (zip_exists, dir_is_dir) {
        (true, true) => false,
        (true, false) => false,
        (false, true) => true,
        (false, false) => false,
    }
}

/// Checks on disk whether mod `mod_name` is downloaded in the repository
/// directory `xml_specific_path`: its directory `<mod_name>` exists and its
/// archive `<mod_name>.zip` does not. The answer depends on the file system
/// at the time of the call; the decision itself is [`download_outcome`].
pub fn is_mod_successfully_downloaded(xml_specific_path: &str, mod_name: &str) -> bool {
    let zip_name = concat_text(mod_name, ".zip");
    let zip_path = join_path(xml_specific_path, zip_name.as_str());
    let dir_path = join_path(xml_specific_path, mod_name);
    let zip_exists = path_exists(zip_path.as_str());
    let dir_present = path_exists(dir_path.as_str()) && path_is_dir(dir_path.as_str());
    download_outcome(zip_exists, dir_present)
}

/// The smallest archive size accepted: anything shorter is taken to be an
/// error message sent in place of the archive.
pub const MIN_ARCHIVE_SIZE: u64 = 100;

/// Whether four bytes are the local-file header signature of a ZIP archive, `PK\x03\x04`.
pub open spec fn is_zip_magic(h: (u8, u8, u8, u8)) -> bool {
    h.0 == 0x50 && h.1 == 0x4B && h.2 == 0x03 && h.3 == 0x04
}

/// The points a download passes through, in order.
#[derive(Debug, Clone, Copy, PartialEq, Eq, Structural)]
pub enum Stage {
    Begin,
    CancelAtStart,
    Settings,
    RepoDir,
    CancelBeforeClean,
    Clean,
    Download,
    CancelAfterDownload,
    Move,
    CancelAfterMove,
    Size,
    SmallText,
    Header,
    CancelBeforeExtract,
    Extract,
    RemoveZip,
    Done,
}

/// Position of a stage in the order downloads pass through them.
pub open spec fn stage_rank(s: Stage) -> int {
    match s {
        Stage::Begin => 0,
        Stage::CancelAtStart => 1,
        Stage::Settings => 2,
        Stage::RepoDir => 3,
        Stage::CancelBeforeClean => 4,
        Stage::Clean => 5,
        Stage::Download => 6,
        Stage::CancelAfterDownload => 7,
        Stage::Move => 8,
        Stage::CancelAfterMove => 9,
        Stage::Size => 10,
        Stage::SmallText => 11,
        Stage::Header => 12,
        Stage::CancelBeforeExtract => 13,
        Stage::Extract => 14,
        Stage::RemoveZip => 15,
        Stage::Done => 16,
    }
}

/// How a download ends: the error to announce to the user interface (if
/// any), the file and the directory to remove (failures to remove are
/// ignored), and the result.
#[derive(Debug)]
pub struct FlowEnd {
    pub report: Option<String>,
    pub remove_file: Option<String>,
    pub remove_dir: Option<String>,
    pub result: Result<(), String>,
}

/// The work a download asks its caller to do next; each is answered with
/// the [`FlowEvent`] named in its description.
#[derive(Debug)]
pub enum FlowStep {
    /// Whether the download was cancelled: `Cancelled`.
    CheckCancelled,
    /// Load the settings: `SettingsLoaded` with the download directory.
    LoadSettings,
    /// Create the directory unless it exists: `Finished`.
    EnsureDirectory(String),
    /// Remove the directory if it exists: `Finished`.
    CleanModDirectory(String),
    /// Announce that the download of `filename` starts (a failure to
    /// announce is ignored), then download `url` into `dest`: `Finished`.
    Download { filename: String, url: String, dest: String },
    /// Rename `from` to `to`: `Finished`.
    MoveFile { from: String, to: String },
    /// The size of the file: `FileSize`.
    ReadFileSize(String),
    /// The file's content as text: `FileText`.
    ReadFileText(String),
    /// Open the file and read its first four bytes: `FileHeader`.
    ReadFileHeader(String),
    /// Extract the archive `zip` into `dir` for `filename`: `Finished`.
    Extract { zip: String, dir: String, filename: String },
    /// Remove the file (a failure is ignored): `Finished`.
    RemoveFile(String),
    /// The download is over.
    Finish(FlowEnd),
}

/// What opening a file and reading its first four bytes gave.
#[derive(Debug, Clone)]
pub enum HeaderRead {
    OpenFailed(String),
    ReadFailed(String),
    Bytes(u8, u8, u8, u8),
}

/// The answer to a [`FlowStep`].
#[derive(Debug)]
pub enum FlowEvent {
    Cancelled(bool),
    SettingsLoaded(Result<String, String>),
    Finished(Result<(), String>),
    FileSize(Result<u64, String>),
    FileText(Result<String, String>),
    FileHeader(HeaderRead),
}

/// One download of `filename` from `url`, for the repository `repo_url`.
pub struct DownloadFlow {
    url: String,
    filename: String,
    repo_url: String,
    cancellable: bool,
    layout: DownloadLayout,
    stage: Stage,
    pending: Result<(), String>,
    size: u64,
    header: Option<(u8, u8, u8, u8)>,
}

/// Whether `end` is a plain end with `result`: nothing announced, nothing removed.
pub open spec fn plain_end(end: FlowEnd, result: Result<(), String>) -> bool {
    end.report is None && end.remove_file is None && end.remove_dir is None && end.result == result
}

/// Whether `end` is a failure with message `msg`, announcing `report`,
/// removing `file`, and no directory.
pub open spec fn failure_end(end: FlowEnd, msg: Seq<char>, reported: bool, file: Option<Seq<char>>) -> bool {
    &&& end.result is Err && end.result->Err_0@ == msg
    &&& reported ==> end.report is Some && end.report->0@ == msg
    &&& !reported ==> end.report is None
    &&& file is Some ==> end.remove_file is Some && end.remove_file->0@ == file->0
    &&& file is None ==> end.remove_file is None
    &&& end.remove_dir is None
}

/// The message of a cancelled download.
pub open spec fn cancelled_msg() -> Seq<char> {
    "Download was cancelled"@
}

impl DownloadFlow {
    pub closed spec fn stage(&self) -> Stage {
        self.stage
    }

    pub closed spec fn layout(&self) -> DownloadLayout {
        self.layout
    }

    pub closed spec fn is_cancellable(&self) -> bool {
        self.cancellable
    }

    pub closed spec fn file_size(&self) -> u64 {
        self.size
    }

    pub closed spec fn header(&self) -> Option<(u8, u8, u8, u8)> {
        self.header
    }

    pub closed spec fn request(&self) -> (Seq<char>, Seq<char>, Seq<char>) {
        (self.url@, self.filename@, self.repo_url@)
    }

    /// The result the download reached before its last check (kept across
    /// the check for cancellation that follows the transfer).
    pub closed spec fn pending(&self) -> Result<(), String> {
        self.pending
    }

    /// A download of `filename` from `url` for the repository `repo_url`.
    /// A cancellable download checks for cancellation before it starts,
    /// before it removes an older copy of the mod, after the transfer, after
    /// moving the archive into place and before extracting it.
    pub fn new(url: String, filename: String, repo_url: String, cancellable: bool) -> (res: DownloadFlow)
        ensures
            res.stage() == Stage::Begin,
            res.is_cancellable() == cancellable,
            res.request() == (url@, filename@, repo_url@),
            res.header() is None,
            res.inv(),
    {
        DownloadFlow {
            url,
            filename,
            repo_url,
            cancellable,
            layout: DownloadLayout {
                xml_specific_path: String::new(),
                file_path: String::new(),
                extract_dir: String::new(),
                temp_file_path: String::new(),
            },
            stage: Stage::Begin,
            pending: Ok(()),
            size: 0,
            header: None,
        }
    }

    /// Whether the download is waiting for an answer of the kind of `event`.
    pub open spec fn awaits(&self, event: FlowEvent) -> bool {
        match self.stage() {
            Stage::CancelAtStart | Stage::CancelBeforeClean | Stage::CancelAfterDownload
            | Stage::CancelAfterMove | Stage::CancelBeforeExtract => event is Cancelled,
            Stage::Settings => event is SettingsLoaded,
            Stage::RepoDir | Stage::Clean | Stage::Download | Stage::Move | Stage::Extract
            | Stage::RemoveZip => event is Finished,
            Stage::Size => event is FileSize,
            Stage::SmallText => event is FileText,
            Stage::Header => event is FileHeader,
            Stage::Begin | Stage::Done => false,
        }
    }

    /// Whether the download is waiting for an answer of the kind of `event`
    /// (see [`Self::awaits`]).
    pub fn accepts(&self, event: &FlowEvent) -> (res: bool)
        ensures
            res == self.awaits(*event),
    {
        match self.stage {
            Stage::CancelAtStart | Stage::CancelBeforeClean | Stage::CancelAfterDownload
            | Stage::CancelAfterMove | Stage::CancelBeforeExtract => matches!(event, FlowEvent::Cancelled(_)),
            Stage::Settings => matches!(event, FlowEvent::SettingsLoaded(_)),
            Stage::RepoDir | Stage::Clean | Stage::Download | Stage::Move | Stage::Extract
            | Stage::RemoveZip => matches!(event, FlowEvent::Finished(_)),
            Stage::Size => matches!(event, FlowEvent::FileSize(_)),
            Stage::SmallText => matches!(event, FlowEvent::FileText(_)),
            Stage::Header => matches!(event, FlowEvent::FileHeader(_)),
            Stage::Begin | Stage::Done => false,
        }
    }

    /// The first step of the download: a check for cancellation when the
    /// download is cancellable, else loading the settings.
    pub fn start(&mut self) -> (step: FlowStep)
        requires
            old(self).stage() == Stage::Begin,
        ensures
            final(self).inv(),
            final(self).request() == old(self).request(),
            final(self).is_cancellable() == old(self).is_cancellable(),
            final(self).header() == old(self).header(),
            old(self).is_cancellable() ==> step is CheckCancelled && final(self).stage()
                == Stage::CancelAtStart,
            !old(self).is_cancellable() ==> step is LoadSettings && final(self).stage()
                == Stage::Settings,
            waits_for(old(self).stage(), step, final(self).stage()),
            stage_rank(final(self).stage()) > stage_rank(old(self).stage()),
    {
        if self.cancellable {
            self.stage = Stage::CancelAtStart;
            FlowStep::CheckCancelled
        } else {
            self.stage = Stage::Settings;
            FlowStep::LoadSettings
        }
    }

    fn finish(&mut self, end: FlowEnd) -> (step: FlowStep)
        ensures
            final(self).stage() == Stage::Done,
            step == FlowStep::Finish(end),
            final(self).request() == old(self).request(),
            final(self).is_cancellable() == old(self).is_cancellable(),
            final(self).layout() == old(self).layout(),
            final(self).file_size() == old(self).file_size(),
            final(self).header() == old(self).header(),
    {
        self.stage = Stage::Done;
        FlowStep::Finish(end)
    }

    fn fail(&mut self, msg: String, report: bool, remove: Option<String>) -> (step: FlowStep)
        ensures
            final(self).stage() == Stage::Done,
            step matches FlowStep::Finish(end) && failure_end(end, msg@, report, match remove {
                Some(p) => Some(p@),
                None => None,
            }),
            final(self).request() == old(self).request(),
            final(self).is_cancellable() == old(self).is_cancellable(),
            final(self).layout() == old(self).layout(),
            final(self).file_size() == old(self).file_size(),
            final(self).header() == old(self).header(),
    {
        let reported = if report {
            Some(msg.clone())
        } else {
            None
        };
        self.finish(FlowEnd { report: reported, remove_file: remove, remove_dir: None, result: Err(msg) })
    }

    fn removal_step(&mut self) -> (step: FlowStep)
        ensures
            final(self).stage() == Stage::RemoveZip,
            step matches FlowStep::RemoveFile(p) && p@ == old(self).layout().file_path@,
            final(self).request() == old(self).request(),
            final(self).is_cancellable() == old(self).is_cancellable(),
            final(self).layout() == old(self).layout(),
            final(self).file_size() == old(self).file_size(),
            final(self).header() == old(self).header(),
    {
        self.stage = Stage::RemoveZip;
        FlowStep::RemoveFile(self.layout.file_path.clone())
    }

    fn extract_step(&mut self) -> (step: FlowStep)
        ensures
            final(self).stage() == Stage::Extract,
            step matches FlowStep::Extract { zip, dir, filename } && zip@ == old(self).layout().file_path@ && dir@ == old(self).layout().extract_dir@ && filename@ == old(self).request().1,
            final(self).request() == old(self).request(),
            final(self).is_cancellable() == old(self).is_cancellable(),
            final(self).layout() == old(self).layout(),
            final(self).file_size() == old(self).file_size(),
            final(self).header() == old(self).header(),
    {
        self.stage = Stage::Extract;
        FlowStep::Extract {
            zip: self.layout.file_path.clone(),
            dir: self.layout.extract_dir.clone(),
            filename: self.filename.clone(),
        }
    }
}


/// Whether `step` ends the download with failure `msg`, announcing it when
/// `reported`, and removing `file` when one is given.
pub open spec fn fails_with(step: FlowStep, msg: Seq<char>, reported: bool, file: Option<Seq<char>>) -> bool {
    step matches FlowStep::Finish(end) && failure_end(end, msg, reported, file)
}

/// The message for a file too small to be an archive whose content could
/// not be read as text.
pub open spec fn too_small_msg(size: u64) -> Seq<char> {
    "Downloaded file is too small to be a valid ZIP ("@ + decimal(size as nat) + " bytes)"@
}

/// The stage at which a download waits for the answer to `step` (a check
/// for cancellation aside, see [`check_after`]).
pub open spec fn step_stage(step: FlowStep) -> Stage {
    match step {
        FlowStep::CheckCancelled => Stage::Begin,
        FlowStep::LoadSettings => Stage::Settings,
        FlowStep::EnsureDirectory(_) => Stage::RepoDir,
        FlowStep::CleanModDirectory(_) => Stage::Clean,
        FlowStep::Download { .. } => Stage::Download,
        FlowStep::MoveFile { .. } => Stage::Move,
        FlowStep::ReadFileSize(_) => Stage::Size,
        FlowStep::ReadFileText(_) => Stage::SmallText,
        FlowStep::ReadFileHeader(_) => Stage::Header,
        FlowStep::Extract { .. } => Stage::Extract,
        FlowStep::RemoveFile(_) => Stage::RemoveZip,
        FlowStep::Finish(_) => Stage::Done,
    }
}

/// The check for cancellation that follows stage `s`.
pub open spec fn check_after(s: Stage) -> Stage {
    match s {
        Stage::Begin => Stage::CancelAtStart,
        Stage::RepoDir => Stage::CancelBeforeClean,
        Stage::Download => Stage::CancelAfterDownload,
        Stage::Move => Stage::CancelAfterMove,
        Stage::Header => Stage::CancelBeforeExtract,
        _ => Stage::Done,
    }
}

/// Whether a download that was at `from` and returned `step` now waits at
/// `to`: the stage that answers the step.
pub open spec fn waits_for(from: Stage, step: FlowStep, to: Stage) -> bool {
    if step is CheckCancelled {
        to == check_after(from)
    } else {
        to == step_stage(step)
    }
}

impl DownloadFlow {
    /// The flow's invariant: the archive is only extracted (or waiting to be)
    /// after its size and header were checked.
    pub closed spec fn inv(&self) -> bool {
        match self.stage {
            Stage::Header => self.size >= MIN_ARCHIVE_SIZE,
            Stage::CancelBeforeExtract | Stage::Extract | Stage::RemoveZip => self.size
                >= MIN_ARCHIVE_SIZE && (self.header matches Some(h) && is_zip_magic(h)),
            _ => true,
        }
    }

    /// Continues the download with the answer to its last step and returns
    /// the next step.
    ///
    /// A cancellation seen at a check ends the download with "Download was
    /// cancelled" (removing the partial or finished archive once there is
    /// one). A failure of the transfer removes the partial file; a file
    /// shorter than [`MIN_ARCHIVE_SIZE`] or not starting with `PK\x03\x04`
    /// is reported and removed; a failed extraction removes the archive and
    /// the mod directory; a successful extraction is followed by removing
    /// the archive and ends with success.
    pub fn resume(&mut self, event: FlowEvent) -> (step: FlowStep)
        requires
            old(self).inv(),
            old(self).awaits(event),
        ensures
            final(self).inv(),
            final(self).request() == old(self).request(),
            final(self).is_cancellable() == old(self).is_cancellable(),
            stage_rank(final(self).stage()) > stage_rank(old(self).stage()),
            waits_for(old(self).stage(), step, final(self).stage()),
            old(self).stage() != Stage::Settings ==> final(self).layout() == old(self).layout(),
            !old(self).is_cancellable() ==> !(step is CheckCancelled),
            (step is Finish) == (final(self).stage() == Stage::Done),
            // every check that finds the download cancelled ends it
            event == FlowEvent::Cancelled(true) ==> (step matches FlowStep::Finish(end)
                && end.result is Err && end.result->Err_0@ == cancelled_msg()),
            // the archive is extracted only after its size and header were checked
            step is Extract ==> final(self).file_size() >= MIN_ARCHIVE_SIZE && (final(self).header() matches Some(h) && is_zip_magic(h)),
            // stage by stage
            old(self).stage() == Stage::CancelAtStart ==> match event {
                FlowEvent::Cancelled(true) => fails_with(step, cancelled_msg(), false, None),
                _ => step is LoadSettings && final(self).stage() == Stage::Settings,
            },
            old(self).stage() == Stage::Settings ==> match event {
                FlowEvent::SettingsLoaded(Err(e)) => fails_with(step, e@, false, None),
                FlowEvent::SettingsLoaded(Ok(base)) => is_layout(
                    final(self).layout(),
                    base@,
                    old(self).request().2,
                    old(self).request().1,
                ) && (step matches FlowStep::EnsureDirectory(d) && d@ == final(self).layout().xml_specific_path@),
                _ => false,
            },
            old(self).stage() == Stage::RepoDir ==> match event {
                FlowEvent::Finished(Err(e)) => fails_with(
                    step,
                    "Failed to create XML-specific download directory: "@ + e@,
                    false,
                    None,
                ),
                _ => if old(self).is_cancellable() {
                    step is CheckCancelled && final(self).stage() == Stage::CancelBeforeClean
                } else {
                    step matches FlowStep::CleanModDirectory(d) && d@ == old(self).layout().extract_dir@
                },
            },
            old(self).stage() == Stage::CancelBeforeClean ==> match event {
                FlowEvent::Cancelled(true) => fails_with(step, cancelled_msg(), false, None),
                _ => step matches FlowStep::CleanModDirectory(d) && d@ == old(self).layout().extract_dir@,
            },
            old(self).stage() == Stage::Clean ==> match event {
                FlowEvent::Finished(Err(e)) => fails_with(step, e@, false, None),
                _ => step matches FlowStep::Download { filename, url, dest } && filename@ == old(self).request().1 && url@ == old(self).request().0 && dest@ == old(self).layout().temp_file_path@,
            },
            old(self).stage() == Stage::Download && old(self).is_cancellable() ==> match event {
                FlowEvent::Finished(r) => step is CheckCancelled && final(self).pending() == r,
                _ => false,
            },
            (old(self).stage() == Stage::Download && !old(self).is_cancellable()) || (old(self).stage() == Stage::CancelAfterDownload && event == FlowEvent::Cancelled(false))
                ==> {
                let r = if old(self).stage() == Stage::Download {
                    match event {
                        FlowEvent::Finished(r) => r,
                        _ => Ok(()),
                    }
                } else {
                    old(self).pending()
                };
                match r {
                    Err(e) => fails_with(step, e@, false, Some(old(self).layout().temp_file_path@)),
                    Ok(_) => step matches FlowStep::MoveFile { from, to } && from@ == old(self).layout().temp_file_path@ && to@ == old(self).layout().file_path@,
                }
            },
            old(self).stage() == Stage::CancelAfterDownload && event == FlowEvent::Cancelled(true)
                ==> fails_with(step, cancelled_msg(), false, Some(old(self).layout().temp_file_path@)),
            old(self).stage() == Stage::Move ==> match event {
                FlowEvent::Finished(Err(e)) => fails_with(step, e@, false, None),
                _ => if old(self).is_cancellable() {
                    step is CheckCancelled
                } else {
                    step matches FlowStep::ReadFileSize(p) && p@ == old(self).layout().file_path@
                },
            },
            old(self).stage() == Stage::CancelAfterMove ==> match event {
                FlowEvent::Cancelled(true) => fails_with(
                    step,
                    cancelled_msg(),
                    false,
                    Some(old(self).layout().file_path@),
                ),
                _ => step matches FlowStep::ReadFileSize(p) && p@ == old(self).layout().file_path@,
            },
            old(self).stage() == Stage::Size ==> match event {
                FlowEvent::FileSize(Err(e)) => fails_with(
                    step,
                    "Failed to get file metadata: "@ + e@,
                    true,
                    None,
                ),
                FlowEvent::FileSize(Ok(n)) => final(self).file_size() == n && if n
                    < MIN_ARCHIVE_SIZE {
                    step matches FlowStep::ReadFileText(p) && p@ == old(self).layout().file_path@
                } else {
                    step matches FlowStep::ReadFileHeader(p) && p@ == old(self).layout().file_path@
                },
                _ => false,
            },
            old(self).stage() == Stage::SmallText ==> match event {
                FlowEvent::FileText(Ok(c)) => fails_with(
                    step,
                    "Server returned error: "@ + c@,
                    true,
                    Some(old(self).layout().file_path@),
                ),
                _ => fails_with(
                    step,
                    too_small_msg(old(self).file_size()),
                    true,
                    Some(old(self).layout().file_path@),
                ),
            },
            old(self).stage() == Stage::Header ==> match event {
                FlowEvent::FileHeader(HeaderRead::OpenFailed(e)) => fails_with(
                    step,
                    "Failed to open file for validation: "@ + e@,
                    true,
                    None,
                ),
                FlowEvent::FileHeader(HeaderRead::ReadFailed(e)) => fails_with(
                    step,
                    "Failed to read file header: "@ + e@,
                    true,
                    Some(old(self).layout().file_path@),
                ),
                FlowEvent::FileHeader(HeaderRead::Bytes(a, b, c, d)) => if is_zip_magic(
                    (a, b, c, d),
                ) {
                    if old(self).is_cancellable() {
                        step is CheckCancelled
                    } else {
                        step is Extract
                    }
                } else {
                    fails_with(
                        step,
                        "Downloaded file is not a valid ZIP archive. File might be corrupted."@,
                        true,
                        Some(old(self).layout().file_path@),
                    )
                },
                _ => false,
            },
            old(self).stage() == Stage::CancelBeforeExtract ==> match event {
                FlowEvent::Cancelled(true) => fails_with(
                    step,
                    cancelled_msg(),
                    false,
                    Some(old(self).layout().file_path@),
                ),
                _ => step is Extract,
            },
            step matches FlowStep::Extract { zip, dir, filename } ==> zip@ == old(self).layout().file_path@ && dir@ == old(self).layout().extract_dir@ && filename@ == old(self).request().1,
            old(self).stage() == Stage::Extract ==> match event {
                FlowEvent::Finished(Err(e)) => step matches FlowStep::Finish(end) && end.report
                    is None && end.remove_file is Some && end.remove_file->0@ == old(self).layout().file_path@ && end.remove_dir is Some && end.remove_dir->0@ == old(self).layout().extract_dir@ && end.result is Err && end.result->Err_0@ == e@,
                _ => step matches FlowStep::RemoveFile(p) && p@ == old(self).layout().file_path@,
            },
            old(self).stage() == Stage::RemoveZip ==> (step matches FlowStep::Finish(end)
                && plain_end(end, Ok(()))),
    {
        match event {
            FlowEvent::Cancelled(cancelled) => if cancelled {
                let remove = match self.stage {
                    Stage::CancelAfterDownload => Some(self.layout.temp_file_path.clone()),
                    Stage::CancelAfterMove | Stage::CancelBeforeExtract => Some(
                        self.layout.file_path.clone(),
                    ),
                    _ => None,
                };
                self.fail(owned("Download was cancelled"), false, remove)
            } else {
                match self.stage {
                    Stage::CancelAtStart => {
                        self.stage = Stage::Settings;
                        FlowStep::LoadSettings
                    },
                    Stage::CancelBeforeClean => {
                        self.stage = Stage::Clean;
                        FlowStep::CleanModDirectory(self.layout.extract_dir.clone())
                    },
                    Stage::CancelAfterDownload => {
                        let r = self.take_pending();
                        self.after_transfer(r)
                    },
                    Stage::CancelAfterMove => {
                        self.stage = Stage::Size;
                        FlowStep::ReadFileSize(self.layout.file_path.clone())
                    },
                    _ => self.extract_step(),
                }
            },
            FlowEvent::SettingsLoaded(loaded) => match loaded {
                Err(e) => self.fail(e, false, None),
                Ok(base) => {
                    self.layout = DownloadLayout::new(
                        base.as_str(),
                        self.repo_url.as_str(),
                        self.filename.as_str(),
                    );
                    self.stage = Stage::RepoDir;
                    FlowStep::EnsureDirectory(self.layout.xml_specific_path.clone())
                },
            },
            FlowEvent::Finished(r) => match self.stage {
                Stage::RepoDir => match r {
                    Err(e) => self.fail(
                        concat_text("Failed to create XML-specific download directory: ", e.as_str()),
                        false,
                        None,
                    ),
                    Ok(_) => if self.cancellable {
                        self.stage = Stage::CancelBeforeClean;
                        FlowStep::CheckCancelled
                    } else {
                        self.stage = Stage::Clean;
                        FlowStep::CleanModDirectory(self.layout.extract_dir.clone())
                    },
                },
                Stage::Clean => match r {
                    Err(e) => self.fail(e, false, None),
                    Ok(_) => {
                        self.stage = Stage::Download;
                        FlowStep::Download {
                            filename: self.filename.clone(),
                            url: self.url.clone(),
                            dest: self.layout.temp_file_path.clone(),
                        }
                    },
                },
                Stage::Download => if self.cancellable {
                    self.pending = r;
                    self.stage = Stage::CancelAfterDownload;
                    FlowStep::CheckCancelled
                } else {
                    self.after_transfer(r)
                },
                Stage::Move => match r {
                    Err(e) => self.fail(e, false, None),
                    Ok(_) => if self.cancellable {
                        self.stage = Stage::CancelAfterMove;
                        FlowStep::CheckCancelled
                    } else {
                        self.stage = Stage::Size;
                        FlowStep::ReadFileSize(self.layout.file_path.clone())
                    },
                },
                Stage::Extract => match r {
                    Err(e) => {
                        let end = FlowEnd {
                            report: None,
                            remove_file: Some(self.layout.file_path.clone()),
                            remove_dir: Some(self.layout.extract_dir.clone()),
                            result: Err(e),
                        };
                        self.finish(end)
                    },
                    Ok(_) => self.removal_step(),
                },
                _ => self.finish(
                    FlowEnd { report: None, remove_file: None, remove_dir: None, result: Ok(()) },
                ),
            },
            FlowEvent::FileSize(r) => match r {
                Err(e) => self.fail(concat_text("Failed to get file metadata: ", e.as_str()), true, None),
                Ok(n) => {
                    self.size = n;
                    if n < MIN_ARCHIVE_SIZE {
                        self.stage = Stage::SmallText;
                        FlowStep::ReadFileText(self.layout.file_path.clone())
                    } else {
                        self.stage = Stage::Header;
                        FlowStep::ReadFileHeader(self.layout.file_path.clone())
                    }
                },
            },
            FlowEvent::FileText(r) => {
                let msg = match r {
                    Ok(c) => concat_text("Server returned error: ", c.as_str()),
                    Err(_) => {
                        let digits = decimal_string(self.size);
                        concat_text3(
                            "Downloaded file is too small to be a valid ZIP (",
                            digits.as_str(),
                            " bytes)",
                        )
                    },
                };
                let file = self.layout.file_path.clone();
                self.fail(msg, true, Some(file))
            },
            FlowEvent::FileHeader(h) => match h {
                HeaderRead::OpenFailed(e) => self.fail(
                    concat_text("Failed to open file for validation: ", e.as_str()),
                    true,
                    None,
                ),
                HeaderRead::ReadFailed(e) => {
                    let file = self.layout.file_path.clone();
                    self.fail(concat_text("Failed to read file header: ", e.as_str()), true, Some(file))
                },
                HeaderRead::Bytes(a, b, c, d) => {
                    self.header = Some((a, b, c, d));
                    if a == 0x50 && b == 0x4B && c == 0x03 && d == 0x04 {
                        if self.cancellable {
                            self.stage = Stage::CancelBeforeExtract;
                            FlowStep::CheckCancelled
                        } else {
                            self.extract_step()
                        }
                    } else {
                        let file = self.layout.file_path.clone();
                        self.fail(
                            owned(
                                "Downloaded file is not a valid ZIP archive. File might be corrupted.",
                            ),
                            true,
                            Some(file),
                        )
                    }
                },
            },
        }
    }

    fn take_pending(&mut self) -> (r: Result<(), String>)
        ensures
            r == old(self).pending(),
            final(self).stage() == old(self).stage(),
            final(self).request() == old(self).request(),
            final(self).is_cancellable() == old(self).is_cancellable(),
            final(self).layout() == old(self).layout(),
            final(self).file_size() == old(self).file_size(),
            final(self).header() == old(self).header(),
    {
        let mut r: Result<(), String> = Ok(());
        std::mem::swap(&mut r, &mut self.pending);
        r
    }

    /// What follows a finished transfer: removing the partial file and
    /// failing, or moving the archive into place.
    fn after_transfer(&mut self, r: Result<(), String>) -> (step: FlowStep)
        ensures
            final(self).request() == old(self).request(),
            final(self).is_cancellable() == old(self).is_cancellable(),
            final(self).layout() == old(self).layout(),
            final(self).file_size() == old(self).file_size(),
            final(self).header() == old(self).header(),
            match r {
                Err(e) => fails_with(step, e@, false, Some(old(self).layout().temp_file_path@))
                    && final(self).stage() == Stage::Done,
                Ok(_) => step matches FlowStep::MoveFile { from, to } && from@ == old(self).layout().temp_file_path@ && to@ == old(self).layout().file_path@ && final(self).stage() == Stage::Move,
            },
    {
        match r {
            Err(e) => {
                let temp = self.layout.temp_file_path.clone();
                self.fail(e, false, Some(temp))
            },
            Ok(_) => {
                self.stage = Stage::Move;
                FlowStep::MoveFile {
                    from: self.layout.temp_file_path.clone(),
                    to: self.layout.file_path.clone(),
                }
            },
        }
    }
}

/// Every stage has a rank between that of the first and the last, and
/// each answer moves a download to a stage of higher rank (see
/// [`DownloadFlow::resume`]): a download ends after at most sixteen answers.
pub proof fn lemma_download_rank_bounded(s: Stage)
    ensures
        stage_rank(Stage::Begin) <= stage_rank(s) <= stage_rank(Stage::Done),
        stage_rank(s) == stage_rank(Stage::Done) ==> s == Stage::Done,
{
}

} // verus!
