//! Shared domain types: dataset metadata, file entries, browse events and
//! their phase stamps, and the error taxonomy.
//!
//! Every executable type has a mathematical view (`...V`) over `Seq<char>`
//! and plain values; the contracts of the browse and assembly engines are
//! stated over these views.

use vstd::prelude::*;

verus! {

/// Phase stamped on every browse event: the state the session was in when
/// the event was produced. A fatal error is stamped with the phase that was
/// active when the failure occurred.
#[derive(Clone, Copy, Debug, PartialEq, Eq, Structural)]
pub enum Phase {
    Init,
    Browsing,
    Completed,
}

/// Machine-readable error code, one per failure class.
#[derive(Clone, Copy, Debug, PartialEq, Eq, Structural)]
pub enum ErrorCode {
    /// Metadata or listing fetch failed; fatal to the browse session.
    ProviderUnavailable,
    /// One file's event could not be delivered; the session continues.
    FileDeliveryFailed,
    /// Wrong file count for an inline tool, or unmet requirements for a
    /// hosted tool.
    ValidationFailed,
    /// The launch call failed.
    DispatcherUnavailable,
    /// The resolved tool descriptor has no handling rule.
    UnsupportedVreVariant,
}

/// A point in time as the wire protocol carries it: whole seconds and a
/// nanosecond remainder. The library never reads a clock; callers hand
/// timestamps in.
#[derive(Clone, Copy, Debug, PartialEq, Eq, Structural)]
pub struct Timestamp {
    pub seconds: i64,
    pub nanos: i32,
}

/// Dataset metadata as the metadata provider reports it. The declared totals
/// may be unknown until browsing completes; once declared they are immutable
/// for the session and are the authoritative basis for success evaluation.
/// Tag keys are unique as the provider hands them out.
#[derive(Debug)]
pub struct DatasetInfo {
    pub repo_url: String,
    pub dataset_id: String,
    pub description: String,
    pub total_files: Option<u64>,
    pub total_size_bytes: Option<u64>,
    pub created_at: Option<Timestamp>,
    pub updated_at: Option<Timestamp>,
    pub tags: Vec<(String, String)>,
}

/// Mathematical view of [`DatasetInfo`].
pub ghost struct DatasetInfoV {
    pub repo_url: Seq<char>,
    pub dataset_id: Seq<char>,
    pub description: Seq<char>,
    pub total_files: Option<u64>,
    pub total_size_bytes: Option<u64>,
    pub created_at: Option<Timestamp>,
    pub updated_at: Option<Timestamp>,
    pub tags: Seq<(Seq<char>, Seq<char>)>,
}

impl DatasetInfo {
    /// The tag mapping's invariant: keys are unique. The provider's map
    /// guarantees this; data from elsewhere can be held to it with
    /// [`DatasetInfo::tags_unique`].
    pub open spec fn tags_wf(&self) -> bool {
        forall|i: int, j: int|
            0 <= i < j < self.tags@.len() ==> (#[trigger] self.tags@[i]).0@
                != (#[trigger] self.tags@[j]).0@
    }

    /// Whether the tag keys are unique, as [`DatasetInfo::tags_wf`] states.
    pub fn tags_unique(&self) -> (b: bool)
        ensures
            b == self.tags_wf(),
    {
        let n = self.tags.len();
        let mut i: usize = 0;
        while i < n
            invariant
                i <= n,
                n == self.tags@.len(),
                forall|p: int, q: int|
                    0 <= p < q < n && p < i ==> (#[trigger] self.tags@[p]).0@
                        != (#[trigger] self.tags@[q]).0@,
            decreases n - i,
        {
            let mut j: usize = i + 1;
            while j < n
                invariant
                    i < j <= n,
                    n == self.tags@.len(),
                    forall|q: int|
                        i < q < j ==> (#[trigger] self.tags@[q]).0@ != self.tags@[i as int].0@,
                decreases n - j,
            {
                if self.tags[i].0 == self.tags[j].0 {
                    return false;
                }
                j = j + 1;
            }
            i = i + 1;
        }
        true
    }
}

impl View for DatasetInfo {
    type V = DatasetInfoV;

    open spec fn view(&self) -> DatasetInfoV {
        DatasetInfoV {
            repo_url: self.repo_url@,
            dataset_id: self.dataset_id@,
            description: self.description@,
            total_files: self.total_files,
            total_size_bytes: self.total_size_bytes,
            created_at: self.created_at,
            updated_at: self.updated_at,
            tags: self.tags@.map_values(|t: (String, String)| (t.0@, t.1@)),
        }
    }
}

/// One file of a dataset: path and size. Transient — produced by the
/// metadata provider, consumed once per browse session, not retained.
#[derive(Debug)]
pub struct FileEntry {
    pub path: String,
    pub size_bytes: u64,
}

/// Mathematical view of [`FileEntry`].
pub ghost struct FileEntryV {
    pub path: Seq<char>,
    pub size_bytes: u64,
}

impl View for FileEntry {
    type V = FileEntryV;

    open spec fn view(&self) -> FileEntryV {
        FileEntryV { path: self.path@, size_bytes: self.size_bytes }
    }
}

/// One event of a browse session's stream.
#[derive(Debug)]
pub enum BrowseEvent {
    /// The dataset's metadata, sent once at the start.
    Info(DatasetInfo),
    /// Running totals after a successful file delivery (and once, with
    /// zeroes, when browsing begins).
    Progress {
        files_scanned: u64,
        bytes_scanned: u64,
        percent: u64,
        current_path: Option<String>,
    },
    /// One file of the dataset, in listing order.
    File(FileEntry),
    /// A failure, fatal (terminates the session) or not.
    Error { code: ErrorCode, message: String, path: Option<String>, fatal: bool },
    /// The terminal event of a successful session: final counts and the
    /// success verdict.
    Complete {
        files_scanned: u64,
        bytes_scanned: u64,
        success: bool,
        finished_at: Option<Timestamp>,
    },
}

/// Mathematical view of [`BrowseEvent`]. Counters widen to `int` so the
/// stream model is stated without machine bounds.
pub ghost enum BrowseEventV {
    Info(DatasetInfoV),
    Progress { files_scanned: int, bytes_scanned: int, percent: int, current_path: Option<Seq<char>> },
    File(FileEntryV),
    Error { code: ErrorCode, message: Seq<char>, path: Option<Seq<char>>, fatal: bool },
    Complete { files_scanned: int, bytes_scanned: int, success: bool, finished_at: Option<Timestamp> },
}

/// View of an optional string.
pub open spec fn opt_str_view(o: Option<String>) -> Option<Seq<char>> {
    match o {
        Option::None => Option::None,
        Option::Some(s) => Option::Some(s@),
    }
}

impl View for BrowseEvent {
    type V = BrowseEventV;

    open spec fn view(&self) -> BrowseEventV {
        match self {
            BrowseEvent::Info(info) => BrowseEventV::Info(info@),
            BrowseEvent::Progress { files_scanned, bytes_scanned, percent, current_path } => {
                BrowseEventV::Progress {
                    files_scanned: *files_scanned as int,
                    bytes_scanned: *bytes_scanned as int,
                    percent: *percent as int,
                    current_path: opt_str_view(*current_path),
                }
            },
            BrowseEvent::File(entry) => BrowseEventV::File(entry@),
            BrowseEvent::Error { code, message, path, fatal } => {
                BrowseEventV::Error {
                    code: *code,
                    message: message@,
                    path: opt_str_view(*path),
                    fatal: *fatal,
                }
            },
            BrowseEvent::Complete { files_scanned, bytes_scanned, success, finished_at } => {
                BrowseEventV::Complete {
                    files_scanned: *files_scanned as int,
                    bytes_scanned: *bytes_scanned as int,
                    success: *success,
                    finished_at: *finished_at,
                }
            },
        }
    }
}

/// A browse event together with the phase it was produced in.
#[derive(Debug)]
pub struct StampedEvent {
    pub phase: Phase,
    pub event: BrowseEvent,
}

/// Mathematical view of [`StampedEvent`].
pub ghost struct StampedEventV {
    pub phase: Phase,
    pub event: BrowseEventV,
}

impl View for StampedEvent {
    type V = StampedEventV;

    open spec fn view(&self) -> StampedEventV {
        StampedEventV { phase: self.phase, event: self.event@ }
    }
}

/// View of a whole event sequence.
pub open spec fn events_view(s: Seq<StampedEvent>) -> Seq<StampedEventV> {
    s.map_values(|e: StampedEvent| e@)
}

/// View of a sequence of strings (a file selection, a requirement list).
pub open spec fn strs_view(s: Seq<String>) -> Seq<Seq<char>> {
    s.map_values(|x: String| x@)
}

/// View of an optional metadata result.
pub open spec fn opt_info_view(o: Option<DatasetInfo>) -> Option<DatasetInfoV> {
    match o {
        Option::None => Option::None,
        Option::Some(i) => Option::Some(i@),
    }
}

/// View of a file listing.
pub open spec fn files_view(s: Seq<FileEntry>) -> Seq<FileEntryV> {
    s.map_values(|f: FileEntry| f@)
}

/// View of an optional file-listing result.
pub open spec fn opt_listing_view(l: Option<Vec<FileEntry>>) -> Option<Seq<FileEntryV>> {
    match l {
        Option::None => Option::None,
        Option::Some(v) => Option::Some(files_view(v@)),
    }
}

/// Appending one event appends its view.
pub proof fn lemma_events_view_push(s: Seq<StampedEvent>, e: StampedEvent)
    ensures
        events_view(s.push(e)) == events_view(s) + seq![e@],
{
    assert(events_view(s.push(e)) =~= events_view(s) + seq![e@]);
}

/// The view of a concatenation is the concatenation of the views.
pub proof fn lemma_events_view_concat(a: Seq<StampedEvent>, b: Seq<StampedEvent>)
    ensures
        events_view(a + b) == events_view(a) + events_view(b),
{
    assert(events_view(a + b) =~= events_view(a) + events_view(b));
}

} // verus!
