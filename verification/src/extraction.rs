//! Extracting a downloaded archive into a mod directory: the archive is
//! first checked entry by entry, then each entry with a safe name is
//! written below the mod directory. The caller holds the archive and does
//! the reading and writing; this module decides the order, the checks, and
//! what each failure is reported as.

use crate::paths::{join_path, path_join};
use crate::text::{concat_text, concat_text3, owned};
use vstd::prelude::*;

verus! {

/// Progress of an extraction, as announced to the user interface.
#[derive(Debug, Clone)]
pub struct ExtractionStatus {
    pub mod_name: String,
    pub status: String,
}

/// A failed extraction, as announced to the user interface.
#[derive(Debug, Clone)]
pub struct ExtractionError {
    pub mod_name: String,
    pub error: String,
}

impl ExtractionStatus {
    /// The announcement that extracting `mod_name` started.
    pub fn extracting(mod_name: &str) -> (res: ExtractionStatus)
        ensures
            res.mod_name@ == mod_name@,
            res.status@ == "extracting"@,
    {
        ExtractionStatus { mod_name: owned(mod_name), status: owned("extracting") }
    }

    /// The announcement that extracting `mod_name` completed.
    pub fn completed(mod_name: &str) -> (res: ExtractionStatus)
        ensures
            res.mod_name@ == mod_name@,
            res.status@ == "completed"@,
    {
        ExtractionStatus { mod_name: owned(mod_name), status: owned("completed") }
    }
}

/// Whether an archive entry name denotes a directory: it ends with `/`.
pub open spec fn is_dir_entry(name: Seq<char>) -> bool {
    name.len() > 0 && name.last() == '/'
}

/// An archive entry is a directory entry exactly when its stored name is
/// not empty and ends with `/`, whatever comes before: a name followed by
/// `/` is a directory entry (nested ones such as `a/b/` included), a name
/// followed by any other character is not, and the empty name is not.
pub proof fn lemma_dir_entry_by_last_char(name: Seq<char>, c: char)
    ensures
        is_dir_entry(name.push(c)) <==> c == '/',
        !is_dir_entry(Seq::<char>::empty()),
{
}

/// Whether an archive entry name denotes a directory (see [`is_dir_entry`]).
pub fn names_directory(name: &str) -> (res: bool)
    ensures
        res == is_dir_entry(name@),
{
    let cs = crate::text::chars_of(name);
    cs.len() > 0 && cs[cs.len() - 1] == '/'
}

/// The stages an extraction passes through, in order.
#[derive(Debug, Clone, Copy, PartialEq, Eq, Structural)]
pub enum ExtractStage {
    Begin,
    CancelAtStart,
    AnnounceStart,
    CreateDir,
    CancelAfterDir,
    OpenArchive,
    CancelBeforeVerify,
    InspectForCheck,
    ReadForCheck,
    CancelBeforeEntry,
    OpenEntry,
    WriteEntry,
    FinalCancel,
    AnnounceDone,
    Done,
}

/// Position of a stage in the order extractions pass through them (the
/// per-entry stages repeat once per entry).
pub open spec fn extract_rank(s: ExtractStage) -> int {
    match s {
        ExtractStage::Begin => 0,
        ExtractStage::CancelAtStart => 1,
        ExtractStage::AnnounceStart => 2,
        ExtractStage::CreateDir => 3,
        ExtractStage::CancelAfterDir => 4,
        ExtractStage::OpenArchive => 5,
        ExtractStage::CancelBeforeVerify => 6,
        ExtractStage::InspectForCheck => 7,
        ExtractStage::ReadForCheck => 8,
        ExtractStage::CancelBeforeEntry => 9,
        ExtractStage::OpenEntry => 10,
        ExtractStage::WriteEntry => 11,
        ExtractStage::FinalCancel => 12,
        ExtractStage::AnnounceDone => 13,
        ExtractStage::Done => 14,
    }
}

/// What opening the archive gave: the file or the archive could not be
/// opened, or the archive holds this many entries.
#[derive(Debug, Clone)]
pub enum ArchiveOpen {
    FileFailed(String),
    ArchiveFailed(String),
    Entries(usize),
}

/// What reading one entry's header gave: its stored name and, when the
/// name is safe to extract, the relative path it is extracted to.
#[derive(Debug, Clone)]
pub struct EntryInfo {
    pub name: String,
    pub enclosed_name: Option<String>,
}

/// Which part of writing an entry failed.
#[derive(Debug, Clone)]
pub enum WriteFailure {
    CreateDirectory(String),
    CreateFile(String),
    CopyContent(String),
}

/// The work an extraction asks its caller to do next.
#[derive(Debug)]
pub enum ExtractStep {
    /// Whether the extraction was cancelled: `Cancelled`.
    CheckCancelled,
    /// Announce the status (a failure to announce ends the extraction): `Announced`.
    Announce(ExtractionStatus),
    /// Create the directory and its parents: `Done`.
    CreateDirectory(String),
    /// Open the archive file as an archive: `Opened`.
    OpenArchive(String),
    /// Read the header of entry `i`: `Entry`.
    InspectEntry(usize),
    /// Read the start of entry `i` (up to its first 4096 bytes), which
    /// checks that what is read of it is intact: `Done`.
    ReadEntryStart(usize),
    /// Write entry `index` to `path`, after creating `parent` when given: as
    /// a directory when `directory`, else as a file with the entry's
    /// content: `Written`.
    WriteEntry { index: usize, path: String, parent: Option<String>, directory: bool },
    /// The extraction is over: announce `report` (if any), remove the
    /// directory `remove_dir` (if any, ignoring failure), and end with `result`.
    Finish { report: Option<ExtractionError>, remove_dir: Option<String>, result: Result<(), String> },
}

/// The answer to an [`ExtractStep`].
#[derive(Debug)]
pub enum ExtractEvent {
    Cancelled(bool),
    Announced(Result<(), String>),
    Done(Result<(), String>),
    Opened(ArchiveOpen),
    Entry(Result<EntryInfo, String>),
    Written(Result<(), WriteFailure>),
}

/// The parent directory std's `Path::parent` gives for `path`, if any.
pub uninterp spec fn path_parent(path: Seq<char>) -> Option<Seq<char>>;

/// Calls `std::path::Path::parent` and renders the result as text. Trusted
/// to return the path named by [`path_parent`]; what std takes as the
/// parent is not stated.
#[verifier::external_body]
fn parent_of(path: &str) -> (res: Option<String>)
    ensures
        res matches Some(p) ==> path_parent(path@) == Some(p@),
        res is None ==> path_parent(path@) is None,
{
    std::path::Path::new(path).parent().map(|p| p.to_string_lossy().into_owned())
}

/// The message of a cancelled extraction.
pub open spec fn extraction_cancelled_msg() -> Seq<char> {
    "Extraction was cancelled"@
}

/// Whether `step` ends the extraction with failure `msg`, reported for
/// `mod_name` when `reported`, removing `dir` when given.
pub open spec fn ends_with_failure(
    step: ExtractStep,
    msg: Seq<char>,
    reported: bool,
    mod_name: Seq<char>,
    dir: Option<Seq<char>>,
) -> bool {
    step matches ExtractStep::Finish { report, remove_dir, result } && {
        &&& result is Err && result->Err_0@ == msg
        &&& reported ==> (report matches Some(r) && r.mod_name@ == mod_name && r.error@ == msg)
        &&& !reported ==> report is None
        &&& dir matches Some(d) ==> (remove_dir matches Some(x) && x@ == d)
        &&& dir is None ==> remove_dir is None
    }
}

/// The message a failed write of an entry is reported with.
pub open spec fn write_failure_msg(f: WriteFailure) -> Seq<char> {
    match f {
        WriteFailure::CreateDirectory(e) => "Failed to create directory: "@ + e@,
        WriteFailure::CreateFile(e) => "Failed to create file: "@ + e@,
        WriteFailure::CopyContent(e) => "Failed to write file content: "@ + e@,
    }
}

/// One extraction of the archive `zip_path` into `extract_dir` for `mod_name`.
pub struct Extraction {
    zip_path: String,
    extract_dir: String,
    mod_name: String,
    cancellable: bool,
    stage: ExtractStage,
    count: usize,
    index: usize,
    checked: bool,
    entry_name: String,
}

impl Extraction {
    pub closed spec fn stage(&self) -> ExtractStage {
        self.stage
    }

    pub closed spec fn is_cancellable(&self) -> bool {
        self.cancellable
    }

    /// The archive, the directory and the mod name of this extraction.
    pub closed spec fn request(&self) -> (Seq<char>, Seq<char>, Seq<char>) {
        (self.zip_path@, self.extract_dir@, self.mod_name@)
    }

    /// Number of entries of the archive (once opened).
    pub closed spec fn entry_count(&self) -> nat {
        self.count as nat
    }

    /// The entry being checked or extracted.
    pub closed spec fn entry_index(&self) -> nat {
        self.index as nat
    }

    /// Whether every entry of the archive passed its check.
    pub closed spec fn archive_checked(&self) -> bool {
        self.checked
    }

    /// The stored name of the entry whose start is being read for the check.
    pub closed spec fn entry_name(&self) -> Seq<char> {
        self.entry_name@
    }

    /// The extraction's invariant: entries are only extracted after all of
    /// them were checked, and the entry index stays within the archive.
    pub closed spec fn inv(&self) -> bool {
        &&& self.index <= self.count
        &&& extract_phase(self.stage) == 0 ==> self.index == 0
        &&& extract_phase(self.stage) <= 1 ==> !self.checked
        &&& !self.cancellable ==> !(self.stage == ExtractStage::CancelAtStart || self.stage
            == ExtractStage::CancelAfterDir || self.stage == ExtractStage::CancelBeforeVerify
            || self.stage == ExtractStage::CancelBeforeEntry || self.stage
            == ExtractStage::FinalCancel)
        &&& match self.stage {
            ExtractStage::InspectForCheck | ExtractStage::ReadForCheck => self.index < self.count,
            ExtractStage::CancelBeforeEntry | ExtractStage::OpenEntry | ExtractStage::WriteEntry => self.checked
                && self.index < self.count,
            ExtractStage::FinalCancel | ExtractStage::AnnounceDone => self.checked && self.index
                == self.count,
            _ => true,
        }
    }

    /// A measure of how far the extraction got; every answer increases it.
    pub open spec fn progress(&self) -> (int, int) {
        (extract_rank(self.stage()), self.entry_index() as int)
    }

    /// Extracting the archive `zip_path` into `extract_dir` for `mod_name`.
    /// A cancellable extraction checks for cancellation before it starts,
    /// after creating the directory, before checking the archive, before
    /// each entry and before announcing completion.
    pub fn new(zip_path: String, extract_dir: String, mod_name: String, cancellable: bool) -> (res:
        Extraction)
        ensures
            res.inv(),
            res.stage() == ExtractStage::Begin,
            res.request() == (zip_path@, extract_dir@, mod_name@),
            res.is_cancellable() == cancellable,
            !res.archive_checked(),
    {
        Extraction {
            zip_path,
            extract_dir,
            mod_name,
            cancellable,
            stage: ExtractStage::Begin,
            count: 0,
            index: 0,
            checked: false,
            entry_name: String::new(),
        }
    }
}


/// The part of an extraction a stage belongs to: before the check of the
/// archive, the check, the writing of entries, and after it.
pub open spec fn extract_phase(s: ExtractStage) -> int {
    match s {
        ExtractStage::InspectForCheck | ExtractStage::ReadForCheck => 1,
        ExtractStage::CancelBeforeEntry | ExtractStage::OpenEntry | ExtractStage::WriteEntry => 2,
        ExtractStage::FinalCancel | ExtractStage::AnnounceDone | ExtractStage::Done => 3,
        _ => 0,
    }
}

/// Whether progress `a` is further than progress `b` (ordered by phase,
/// then entry, then stage).
pub open spec fn further(a: (int, int, int), b: (int, int, int)) -> bool {
    a.0 > b.0 || (a.0 == b.0 && (a.1 > b.1 || (a.1 == b.1 && a.2 > b.2)))
}

/// Whether `step` announces that the extraction `t` completed, `t` waiting
/// for the announcement to be made.
pub open spec fn announces_done(t: Extraction, step: ExtractStep) -> bool {
    &&& t.stage() == ExtractStage::AnnounceDone
    &&& step matches ExtractStep::Announce(st) && st.mod_name@ == t.request().2 && st.status@
        == "completed"@
}

/// Whether `step` leads toward the entry at the index of `t`: a check for
/// cancellation (when `cancellable`) or the entry's header while entries
/// remain; else the last check or the announcement of completion.
pub open spec fn toward(cancellable: bool, t: Extraction, step: ExtractStep) -> bool {
    if t.entry_index() < t.entry_count() {
        if cancellable {
            step is CheckCancelled && t.stage() == ExtractStage::CancelBeforeEntry
        } else {
            t.stage() == ExtractStage::OpenEntry && (step matches ExtractStep::InspectEntry(i)
                && i == t.entry_index())
        }
    } else if cancellable {
        step is CheckCancelled && t.stage() == ExtractStage::FinalCancel
    } else {
        announces_done(t, step)
    }
}

/// Whether `t` starts extracting the entries, the archive being checked,
/// from the first entry.
pub open spec fn begins_entries(cancellable: bool, t: Extraction, step: ExtractStep) -> bool {
    &&& t.archive_checked()
    &&& t.entry_index() == 0
    &&& toward(cancellable, t, step)
}

/// Whether `t` starts checking the entries: the header of the first one,
/// or (for an empty archive) the extraction of the entries.
pub open spec fn starts_check(cancellable: bool, t: Extraction, step: ExtractStep) -> bool {
    if t.entry_count() > 0 {
        &&& t.stage() == ExtractStage::InspectForCheck
        &&& t.entry_index() == 0
        &&& !t.archive_checked()
        &&& step matches ExtractStep::InspectEntry(i) && i == 0
    } else {
        begins_entries(cancellable, t, step)
    }
}

/// Whether, after the entry of `s` passed its check, `t` checks the next
/// entry or starts extracting them.
pub open spec fn checks_next(s: Extraction, t: Extraction, step: ExtractStep) -> bool {
    &&& t.entry_count() == s.entry_count()
    &&& if s.entry_index() + 1 < s.entry_count() {
        &&& t.stage() == ExtractStage::InspectForCheck
        &&& t.entry_index() == s.entry_index() + 1
        &&& !t.archive_checked()
        &&& step matches ExtractStep::InspectEntry(i) && i == t.entry_index()
    } else {
        begins_entries(s.is_cancellable(), t, step)
    }
}

/// Whether, after the entry of `s` was extracted (or skipped), `t` goes on
/// with the next entry.
pub open spec fn writes_next(s: Extraction, t: Extraction, step: ExtractStep) -> bool {
    &&& t.entry_count() == s.entry_count()
    &&& t.entry_index() == s.entry_index() + 1
    &&& t.archive_checked()
    &&& toward(s.is_cancellable(), t, step)
}

/// Whether `step` opens the archive of `s`, `t` waiting for it.
pub open spec fn opens(s: Extraction, t: Extraction, step: ExtractStep) -> bool {
    &&& t.stage() == ExtractStage::OpenArchive
    &&& t.entry_index() == 0
    &&& step matches ExtractStep::OpenArchive(z) && z@ == s.request().0
}

impl Extraction {
    /// How far the extraction got: its phase, its entry, its stage.
    pub open spec fn position(&self) -> (int, int, int) {
        (extract_phase(self.stage()), self.entry_index() as int, extract_rank(self.stage()))
    }

    /// Whether the extraction waits for an answer of the kind of `event`.
    pub open spec fn awaits(&self, event: ExtractEvent) -> bool {
        match self.stage() {
            ExtractStage::CancelAtStart | ExtractStage::CancelAfterDir
            | ExtractStage::CancelBeforeVerify | ExtractStage::CancelBeforeEntry
            | ExtractStage::FinalCancel => event is Cancelled,
            ExtractStage::AnnounceStart | ExtractStage::AnnounceDone => event is Announced,
            ExtractStage::CreateDir | ExtractStage::ReadForCheck => event is Done,
            ExtractStage::OpenArchive => event is Opened,
            ExtractStage::InspectForCheck | ExtractStage::OpenEntry => event is Entry,
            ExtractStage::WriteEntry => event is Written,
            ExtractStage::Begin | ExtractStage::Done => false,
        }
    }

    /// Whether the extraction waits for an answer of the kind of `event`
    /// (see [`Self::awaits`]).
    pub fn accepts(&self, event: &ExtractEvent) -> (res: bool)
        ensures
            res == self.awaits(*event),
    {
        match self.stage {
            ExtractStage::CancelAtStart | ExtractStage::CancelAfterDir
            | ExtractStage::CancelBeforeVerify | ExtractStage::CancelBeforeEntry
            | ExtractStage::FinalCancel => matches!(event, ExtractEvent::Cancelled(_)),
            ExtractStage::AnnounceStart | ExtractStage::AnnounceDone => matches!(event, ExtractEvent::Announced(_)),
            ExtractStage::CreateDir | ExtractStage::ReadForCheck => matches!(event, ExtractEvent::Done(_)),
            ExtractStage::OpenArchive => matches!(event, ExtractEvent::Opened(_)),
            ExtractStage::InspectForCheck | ExtractStage::OpenEntry => matches!(event, ExtractEvent::Entry(_)),
            ExtractStage::WriteEntry => matches!(event, ExtractEvent::Written(_)),
            ExtractStage::Begin | ExtractStage::Done => false,
        }
    }

    /// The first step: a check for cancellation when cancellable, else the
    /// announcement that extraction starts.
    pub fn start(&mut self) -> (step: ExtractStep)
        requires
            old(self).stage() == ExtractStage::Begin,
            old(self).inv(),
        ensures
            final(self).inv(),
            final(self).request() == old(self).request(),
            final(self).is_cancellable() == old(self).is_cancellable(),
            further(final(self).position(), old(self).position()),
            old(self).is_cancellable() ==> step is CheckCancelled && final(self).stage()
                == ExtractStage::CancelAtStart,
            !old(self).is_cancellable() ==> (step matches ExtractStep::Announce(st) && st.mod_name@
                == old(self).request().2 && st.status@ == "extracting"@) && final(self).stage()
                == ExtractStage::AnnounceStart,
            final(self).entry_index() == 0 && !final(self).archive_checked(),
    {
        if self.cancellable {
            self.stage = ExtractStage::CancelAtStart;
            ExtractStep::CheckCancelled
        } else {
            self.stage = ExtractStage::AnnounceStart;
            ExtractStep::Announce(ExtractionStatus::extracting(self.mod_name.as_str()))
        }
    }

    fn end(&mut self, report: Option<ExtractionError>, remove_dir: Option<String>, result: Result<(), String>) -> (step: ExtractStep)
        ensures
            final(self).stage() == ExtractStage::Done,
            final(self).request() == old(self).request(),
            final(self).is_cancellable() == old(self).is_cancellable(),
            final(self).entry_index() == old(self).entry_index(),
            final(self).entry_count() == old(self).entry_count(),
            final(self).archive_checked() == old(self).archive_checked(),
            step == (ExtractStep::Finish { report, remove_dir, result }),
    {
        self.stage = ExtractStage::Done;
        ExtractStep::Finish { report, remove_dir, result }
    }

    fn fail(&mut self, msg: String) -> (step: ExtractStep)
        ensures
            final(self).stage() == ExtractStage::Done,
            final(self).request() == old(self).request(),
            final(self).is_cancellable() == old(self).is_cancellable(),
            final(self).entry_index() == old(self).entry_index(),
            final(self).entry_count() == old(self).entry_count(),
            final(self).archive_checked() == old(self).archive_checked(),
            ends_with_failure(step, msg@, true, old(self).request().2, None),
    {
        let report = ExtractionError { mod_name: self.mod_name.clone(), error: msg.clone() };
        self.end(Some(report), None, Err(msg))
    }

    fn cancelled(&mut self, dir_created: bool) -> (step: ExtractStep)
        ensures
            final(self).stage() == ExtractStage::Done,
            final(self).request() == old(self).request(),
            final(self).is_cancellable() == old(self).is_cancellable(),
            final(self).entry_index() == old(self).entry_index(),
            final(self).entry_count() == old(self).entry_count(),
            final(self).archive_checked() == old(self).archive_checked(),
            ends_with_failure(
                step,
                extraction_cancelled_msg(),
                false,
                old(self).request().2,
                if dir_created {
                    Some(old(self).request().1)
                } else {
                    None
                },
            ),
    {
        let dir = if dir_created {
            Some(self.extract_dir.clone())
        } else {
            None
        };
        self.end(None, dir, Err(owned("Extraction was cancelled")))
    }

    fn open_archive(&mut self) -> (step: ExtractStep)
        requires
            old(self).inv(),
            extract_phase(old(self).stage()) == 0,
            old(self).entry_index() == 0,
        ensures
            opens(*old(self), *final(self), step) && final(self).entry_count() == old(self).entry_count(),
            final(self).inv(),
            final(self).stage() == ExtractStage::OpenArchive,
            final(self).request() == old(self).request(),
            final(self).is_cancellable() == old(self).is_cancellable(),
            final(self).entry_index() == old(self).entry_index(),
            final(self).archive_checked() == old(self).archive_checked(),
            step matches ExtractStep::OpenArchive(z) && z@ == old(self).request().0,
    {
        self.stage = ExtractStage::OpenArchive;
        ExtractStep::OpenArchive(self.zip_path.clone())
    }

    fn announce_done(&mut self) -> (step: ExtractStep)
        requires
            old(self).entry_index() == old(self).entry_count(),
            old(self).entry_index() <= old(self).entry_count(),
            old(self).archive_checked(),
        ensures
            announces_done(*final(self), step),
            final(self).inv(),
            final(self).stage() == ExtractStage::AnnounceDone,
            final(self).request() == old(self).request(),
            final(self).is_cancellable() == old(self).is_cancellable(),
            final(self).entry_index() == old(self).entry_index(),
            final(self).entry_count() == old(self).entry_count(),
            final(self).archive_checked(),
            step matches ExtractStep::Announce(st) && st.mod_name@ == old(self).request().2
                && st.status@ == "completed"@,
    {
        self.stage = ExtractStage::AnnounceDone;
        ExtractStep::Announce(ExtractionStatus::completed(self.mod_name.as_str()))
    }

    /// After the last entry: a last check for cancellation, or the
    /// announcement of completion.
    fn after_entries(&mut self) -> (step: ExtractStep)
        requires
            old(self).entry_index() <= old(self).entry_count(),
            old(self).archive_checked(),
            old(self).entry_index() == old(self).entry_count(),
        ensures
            toward(old(self).is_cancellable(), *final(self), step),
            final(self).inv(),
            extract_phase(final(self).stage()) == 3,
            final(self).stage() != ExtractStage::Done,
            final(self).request() == old(self).request(),
            final(self).is_cancellable() == old(self).is_cancellable(),
            final(self).entry_index() == old(self).entry_index(),
            final(self).entry_count() == old(self).entry_count(),
            final(self).archive_checked(),
            old(self).is_cancellable() ==> step is CheckCancelled,
            !old(self).is_cancellable() ==> (step matches ExtractStep::Announce(st)
                && st.status@ == "completed"@),
    {
        if self.cancellable {
            self.stage = ExtractStage::FinalCancel;
            ExtractStep::CheckCancelled
        } else {
            self.announce_done()
        }
    }

    /// Asks for entry `index` to be extracted, after a check for
    /// cancellation when cancellable.
    fn toward_entry(&mut self) -> (step: ExtractStep)
        requires
            old(self).entry_index() <= old(self).entry_count(),
            old(self).archive_checked(),
            old(self).entry_index() < old(self).entry_count(),
        ensures
            toward(old(self).is_cancellable(), *final(self), step),
            final(self).inv(),
            extract_phase(final(self).stage()) == 2,
            final(self).stage() != ExtractStage::WriteEntry,
            final(self).request() == old(self).request(),
            final(self).is_cancellable() == old(self).is_cancellable(),
            final(self).entry_index() == old(self).entry_index(),
            final(self).entry_count() == old(self).entry_count(),
            final(self).archive_checked(),
            old(self).is_cancellable() ==> step is CheckCancelled,
            !old(self).is_cancellable() ==> step == ExtractStep::InspectEntry(old(self).index),
    {
        if self.cancellable {
            self.stage = ExtractStage::CancelBeforeEntry;
            ExtractStep::CheckCancelled
        } else {
            self.stage = ExtractStage::OpenEntry;
            ExtractStep::InspectEntry(self.index)
        }
    }

    /// Starts writing entries, once every entry passed its check.
    fn begin_entries(&mut self) -> (step: ExtractStep)
        requires
            old(self).entry_index() <= old(self).entry_count(),
            old(self).entry_index() == old(self).entry_count(),
            extract_phase(old(self).stage()) <= 1,
        ensures
            begins_entries(old(self).is_cancellable(), *final(self), step),
            final(self).inv(),
            extract_phase(final(self).stage()) >= 2,
            final(self).stage() != ExtractStage::Done,
            final(self).stage() != ExtractStage::WriteEntry,
            final(self).request() == old(self).request(),
            final(self).is_cancellable() == old(self).is_cancellable(),
            final(self).entry_count() == old(self).entry_count(),
            final(self).archive_checked(),
            !(step is WriteEntry) && !(step is Finish) && !(step is ReadEntryStart),
            !old(self).is_cancellable() ==> !(step is CheckCancelled),
    {
        self.checked = true;
        self.index = 0;
        if self.count == 0 {
            self.after_entries()
        } else {
            self.toward_entry()
        }
    }

    /// Starts checking the archive entry by entry.
    fn begin_check(&mut self) -> (step: ExtractStep)
        requires
            old(self).inv(),
            extract_phase(old(self).stage()) == 0,
            old(self).entry_index() == 0,
        ensures
            starts_check(old(self).is_cancellable(), *final(self), step),
            final(self).inv(),
            extract_phase(final(self).stage()) >= 1,
            final(self).stage() != ExtractStage::Done,
            final(self).stage() != ExtractStage::WriteEntry,
            final(self).request() == old(self).request(),
            final(self).is_cancellable() == old(self).is_cancellable(),
            final(self).entry_count() == old(self).entry_count(),
            !(step is WriteEntry) && !(step is Finish) && !(step is ReadEntryStart),
            !old(self).is_cancellable() ==> !(step is CheckCancelled),
    {
        self.index = 0;
        if self.count == 0 {
            self.begin_entries()
        } else {
            self.stage = ExtractStage::InspectForCheck;
            ExtractStep::InspectEntry(0)
        }
    }

    /// Moves on to the next entry to check, or to writing entries.
    fn next_check(&mut self) -> (step: ExtractStep)
        requires
            old(self).inv(),
            extract_phase(old(self).stage()) == 1,
        ensures
            checks_next(*old(self), *final(self), step),
            final(self).inv(),
            further(final(self).position(), old(self).position()),
            final(self).stage() != ExtractStage::Done,
            final(self).stage() != ExtractStage::WriteEntry,
            final(self).request() == old(self).request(),
            final(self).is_cancellable() == old(self).is_cancellable(),
            final(self).entry_count() == old(self).entry_count(),
            !(step is WriteEntry) && !(step is Finish) && !(step is ReadEntryStart),
            !old(self).is_cancellable() ==> !(step is CheckCancelled),
    {
        self.index = self.index + 1;
        if self.index == self.count {
            self.begin_entries()
        } else {
            self.stage = ExtractStage::InspectForCheck;
            ExtractStep::InspectEntry(self.index)
        }
    }

    /// Moves on to the next entry to write, or to the end.
    fn next_entry(&mut self) -> (step: ExtractStep)
        requires
            old(self).inv(),
            extract_phase(old(self).stage()) == 2,
        ensures
            writes_next(*old(self), *final(self), step),
            final(self).inv(),
            further(final(self).position(), old(self).position()),
            final(self).stage() != ExtractStage::Done,
            final(self).stage() != ExtractStage::WriteEntry,
            final(self).request() == old(self).request(),
            final(self).is_cancellable() == old(self).is_cancellable(),
            final(self).entry_count() == old(self).entry_count(),
            final(self).archive_checked(),
            final(self).entry_index() == old(self).entry_index() + 1,
            !(step is WriteEntry) && !(step is Finish) && !(step is ReadEntryStart),
            !old(self).is_cancellable() ==> !(step is CheckCancelled),
    {
        self.index = self.index + 1;
        if self.index == self.count {
            self.after_entries()
        } else {
            self.toward_entry()
        }
    }

    /// Continues the extraction with the answer to its last step and
    /// returns the next step.
    ///
    /// A cancellation seen at a check ends it with "Extraction was
    /// cancelled", removing the mod directory once it was created. Every
    /// entry is checked before any is written; an entry without a safe
    /// name is skipped, and every other entry is written to its safe name
    /// below the mod directory. Each failure is reported with its message.
    pub fn resume(&mut self, event: ExtractEvent) -> (step: ExtractStep)
        requires
            old(self).inv(),
            old(self).awaits(event),
        ensures
            final(self).inv(),
            final(self).request() == old(self).request(),
            final(self).is_cancellable() == old(self).is_cancellable(),
            further(final(self).position(), old(self).position()),
            (step is Finish) == (final(self).stage() == ExtractStage::Done),
            !old(self).is_cancellable() ==> !(step is CheckCancelled),
            // a check that finds the extraction cancelled ends it
            event == ExtractEvent::Cancelled(true) ==> ends_with_failure(
                step,
                extraction_cancelled_msg(),
                false,
                old(self).request().2,
                if old(self).stage() == ExtractStage::CancelAtStart {
                    None
                } else {
                    Some(old(self).request().1)
                },
            ),
            // entries are written only once the whole archive was checked,
            // and only to their safe name below the mod directory
            step is WriteEntry ==> final(self).archive_checked() && old(self).stage()
                == ExtractStage::OpenEntry,
            step matches ExtractStep::WriteEntry { index, path, parent, directory } ==> (event matches ExtractEvent::Entry(
                Ok(info),
            ) && info.enclosed_name matches Some(rel) && path@ == path_join(
                old(self).request().1,
                rel@,
            ) && directory == is_dir_entry(info.name@) && index == old(self).entry_index()
                && (parent matches Some(p) ==> path_parent(path@) == Some(p@)) && (parent is None
                ==> path_parent(path@) is None)),
            old(self).stage() == ExtractStage::OpenEntry ==> (event matches ExtractEvent::Entry(
                Ok(info),
            ) && info.enclosed_name is None ==> !(step is WriteEntry) && final(self).entry_index()
                == old(self).entry_index() + 1),
            // the path of a successful extraction, answer by answer
            old(self).stage() == ExtractStage::CancelAtStart && event == ExtractEvent::Cancelled(
                false,
            ) ==> final(self).stage() == ExtractStage::AnnounceStart && (step matches ExtractStep::Announce(
                st,
            ) && st.mod_name@ == old(self).request().2 && st.status@ == "extracting"@),
            old(self).stage() == ExtractStage::AnnounceStart && (event matches ExtractEvent::Announced(Ok(_))) ==> final(self).stage() == ExtractStage::CreateDir && (step matches ExtractStep::CreateDirectory(
                d,
            ) && d@ == old(self).request().1),
            old(self).stage() == ExtractStage::CreateDir && (event matches ExtractEvent::Done(Ok(_))) ==> if old(self).is_cancellable() {
                step is CheckCancelled && final(self).stage() == ExtractStage::CancelAfterDir
            } else {
                opens(*old(self), *final(self), step)
            },
            old(self).stage() == ExtractStage::CancelAfterDir && event == ExtractEvent::Cancelled(false)
                ==> opens(*old(self), *final(self), step),
            old(self).stage() == ExtractStage::OpenArchive ==> (event matches ExtractEvent::Opened(
                ArchiveOpen::Entries(n),
            ) ==> final(self).entry_count() == n && if old(self).is_cancellable() {
                step is CheckCancelled && final(self).stage() == ExtractStage::CancelBeforeVerify
            } else {
                starts_check(false, *final(self), step)
            }),
            old(self).stage() == ExtractStage::CancelBeforeVerify && event == ExtractEvent::Cancelled(
                false,
            ) ==> final(self).entry_count() == old(self).entry_count() && starts_check(
                true,
                *final(self),
                step,
            ),
            old(self).stage() == ExtractStage::InspectForCheck ==> (event matches ExtractEvent::Entry(
                Ok(info),
            ) ==> if is_dir_entry(info.name@) {
                checks_next(*old(self), *final(self), step)
            } else {
                final(self).stage() == ExtractStage::ReadForCheck && final(self).entry_index()
                    == old(self).entry_index() && final(self).entry_name() == info.name@ && (
                step matches ExtractStep::ReadEntryStart(i) && i == old(self).entry_index())
            }),
            old(self).stage() == ExtractStage::ReadForCheck ==> (event matches ExtractEvent::Done(
                Err(e),
            ) ==> ends_with_failure(
                step,
                "ZIP archive failed verification: Failed to read file '"@ + old(self).entry_name()
                    + "': "@ + e@,
                true,
                old(self).request().2,
                None,
            )),
            old(self).stage() == ExtractStage::ReadForCheck && (event matches ExtractEvent::Done(Ok(_)))
                ==> checks_next(*old(self), *final(self), step),
            old(self).stage() == ExtractStage::CancelBeforeEntry && event == ExtractEvent::Cancelled(
                false,
            ) ==> final(self).stage() == ExtractStage::OpenEntry && final(self).entry_index() == old(self).entry_index() && (step matches ExtractStep::InspectEntry(i) && i == old(self).entry_index()),
            old(self).stage() == ExtractStage::OpenEntry ==> (event matches ExtractEvent::Entry(
                Ok(info),
            ) ==> if info.enclosed_name is None {
                writes_next(*old(self), *final(self), step)
            } else {
                step is WriteEntry && final(self).stage() == ExtractStage::WriteEntry && final(self).entry_index() == old(self).entry_index()
            }),
            old(self).stage() == ExtractStage::WriteEntry && (event matches ExtractEvent::Written(Ok(_)))
                ==> writes_next(*old(self), *final(self), step),
            old(self).stage() == ExtractStage::FinalCancel && event == ExtractEvent::Cancelled(false)
                ==> announces_done(*final(self), step),
            // success only after every entry was checked and extracted and
            // the completion was announced
            (step matches ExtractStep::Finish { report, remove_dir, result } && result is Ok) ==> old(self).stage() == ExtractStage::AnnounceDone && (event matches ExtractEvent::Announced(Ok(_)))
                && old(self).archive_checked() && old(self).entry_index() == old(self).entry_count(),
            // failures and what they are reported as
            event matches ExtractEvent::Announced(Err(e)) ==> (step matches ExtractStep::Finish {
                report,
                remove_dir,
                result,
            } && report is None && remove_dir is None && result is Err && result->Err_0 == e),
            old(self).stage() == ExtractStage::AnnounceDone && (event matches ExtractEvent::Announced(Ok(_))) ==> step == (ExtractStep::Finish { report: None, remove_dir: None, result: Ok(()) }),
            old(self).stage() == ExtractStage::CreateDir ==> (event matches ExtractEvent::Done(Err(e))
                ==> ends_with_failure(
                step,
                "Failed to create extraction directory: "@ + e@,
                true,
                old(self).request().2,
                None,
            )),
            event matches ExtractEvent::Opened(ArchiveOpen::FileFailed(e)) ==> ends_with_failure(
                step,
                "Failed to open ZIP file: "@ + e@,
                true,
                old(self).request().2,
                None,
            ),
            event matches ExtractEvent::Opened(ArchiveOpen::ArchiveFailed(e)) ==> ends_with_failure(
                step,
                "The ZIP file is corrupted or invalid: "@ + e@,
                true,
                old(self).request().2,
                None,
            ),
            old(self).stage() == ExtractStage::InspectForCheck ==> (event matches ExtractEvent::Entry(
                Err(e),
            ) ==> ends_with_failure(
                step,
                "ZIP archive failed verification: Failed to access file in archive: "@ + e@,
                true,
                old(self).request().2,
                None,
            )),
            old(self).stage() == ExtractStage::InspectForCheck ==> (event matches ExtractEvent::Entry(
                Ok(info),
            ) ==> (is_dir_entry(info.name@) <==> !(step is ReadEntryStart))),
            old(self).stage() == ExtractStage::OpenEntry ==> (event matches ExtractEvent::Entry(Err(e))
                ==> ends_with_failure(
                step,
                "Failed to read file in ZIP: "@ + e@,
                true,
                old(self).request().2,
                None,
            )),
            event matches ExtractEvent::Written(Err(f)) ==> ends_with_failure(
                step,
                write_failure_msg(f),
                true,
                old(self).request().2,
                None,
            ),
    {
        match event {
            ExtractEvent::Cancelled(c) => {
                if c {
                    let dir_created = self.stage != ExtractStage::CancelAtStart;
                    self.cancelled(dir_created)
                } else {
                    match self.stage {
                        ExtractStage::CancelAtStart => {
                            self.stage = ExtractStage::AnnounceStart;
                            ExtractStep::Announce(ExtractionStatus::extracting(self.mod_name.as_str()))
                        },
                        ExtractStage::CancelAfterDir => self.open_archive(),
                        ExtractStage::CancelBeforeVerify => self.begin_check(),
                        ExtractStage::CancelBeforeEntry => {
                            self.stage = ExtractStage::OpenEntry;
                            ExtractStep::InspectEntry(self.index)
                        },
                        _ => self.announce_done(),
                    }
                }
            },
            ExtractEvent::Announced(r) => match r {
                Err(e) => self.end(None, None, Err(e)),
                Ok(_) => if self.stage == ExtractStage::AnnounceStart {
                    self.stage = ExtractStage::CreateDir;
                    ExtractStep::CreateDirectory(self.extract_dir.clone())
                } else {
                    self.end(None, None, Ok(()))
                },
            },
            ExtractEvent::Done(r) => if self.stage == ExtractStage::CreateDir {
                match r {
                    Err(e) => self.fail(concat_text("Failed to create extraction directory: ", e.as_str())),
                    Ok(_) => if self.cancellable {
                        self.stage = ExtractStage::CancelAfterDir;
                        ExtractStep::CheckCancelled
                    } else {
                        self.open_archive()
                    },
                }
            } else {
                match r {
                    Err(e) => {
                        let inner = concat_text3("Failed to read file '", self.entry_name.as_str(), "': ");
                        let detail = concat_text(inner.as_str(), e.as_str());
                        let msg = concat_text("ZIP archive failed verification: ", detail.as_str());
                        proof {
                            reveal_strlit("ZIP archive failed verification: ");
                            reveal_strlit("Failed to read file '");
                            reveal_strlit("ZIP archive failed verification: Failed to read file '");
                            assert(msg@ =~= "ZIP archive failed verification: Failed to read file '"@
                                + self.entry_name@ + "': "@ + e@);
                        }
                        self.fail(msg)
                    },
                    Ok(_) => self.next_check(),
                }
            },
            ExtractEvent::Opened(o) => match o {
                ArchiveOpen::FileFailed(e) => self.fail(concat_text("Failed to open ZIP file: ", e.as_str())),
                ArchiveOpen::ArchiveFailed(e) => self.fail(
                    concat_text("The ZIP file is corrupted or invalid: ", e.as_str()),
                ),
                ArchiveOpen::Entries(n) => {
                    self.count = n;
                    if self.cancellable {
                        self.stage = ExtractStage::CancelBeforeVerify;
                        ExtractStep::CheckCancelled
                    } else {
                        self.begin_check()
                    }
                },
            },
            ExtractEvent::Entry(r) => if self.stage == ExtractStage::InspectForCheck {
                match r {
                    Err(e) => self.fail(
                        concat_text(
                            "ZIP archive failed verification: Failed to access file in archive: ",
                            e.as_str(),
                        ),
                    ),
                    Ok(info) => if names_directory(info.name.as_str()) {
                        self.next_check()
                    } else {
                        self.entry_name = info.name;
                        self.stage = ExtractStage::ReadForCheck;
                        ExtractStep::ReadEntryStart(self.index)
                    },
                }
            } else {
                match r {
                    Err(e) => self.fail(concat_text("Failed to read file in ZIP: ", e.as_str())),
                    Ok(info) => match &info.enclosed_name {
                        None => self.next_entry(),
                        Some(rel) => {
                            let path = join_path(self.extract_dir.as_str(), rel.as_str());
                            let parent = parent_of(path.as_str());
                            let directory = names_directory(info.name.as_str());
                            self.stage = ExtractStage::WriteEntry;
                            ExtractStep::WriteEntry { index: self.index, path, parent, directory }
                        },
                    },
                }
            },
            ExtractEvent::Written(r) => match r {
                Err(f) => {
                    let msg = match f {
                        WriteFailure::CreateDirectory(e) => concat_text("Failed to create directory: ", e.as_str()),
                        WriteFailure::CreateFile(e) => concat_text("Failed to create file: ", e.as_str()),
                        WriteFailure::CopyContent(e) => concat_text("Failed to write file content: ", e.as_str()),
                    };
                    self.fail(msg)
                },
                Ok(_) => self.next_entry(),
            },
        }
    }
}

} // verus!
