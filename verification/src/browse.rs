//! The dataset-browse phase state machine.
//!
//! A browse session walks `Init -> Browsing -> Completed`, with an alternate
//! terminal `Aborted` reached from either live state on a fatal provider
//! failure. The session itself performs no provider call and no delivery:
//! the surrounding harness fetches metadata and listings and attempts to
//! deliver each event, and hands the session the results. The session
//! decides, for every outcome, which events the stream holds next and how
//! the progress counters move.
//!
//! The whole stream of one session is pinned by the spec function
//! [`browse_stream`]; the laws at the end of this file are proved of it.

use vstd::prelude::*;
use vstd::arithmetic::div_mod::{lemma_div_basics, lemma_div_is_ordered};

use crate::domain::{
    BrowseEvent, BrowseEventV, DatasetInfo, DatasetInfoV, ErrorCode, FileEntry, FileEntryV, Phase,
    StampedEvent, StampedEventV, Timestamp, events_view,
};

verus! {

// ---------------------------------------------------------------------------
// The mathematical model of one session's stream
// ---------------------------------------------------------------------------

/// Message carried by the fatal error when the metadata fetch fails.
pub open spec fn msg_info_failed() -> Seq<char> {
    "dataset metadata unavailable"@
}

/// Message carried by the fatal error when the file-listing fetch fails.
pub open spec fn msg_listing_failed() -> Seq<char> {
    "file listing unavailable"@
}

/// Message carried by the non-fatal error when one file's delivery fails.
pub open spec fn msg_delivery_failed() -> Seq<char> {
    "file delivery failed"@
}

/// Percent reported after a delivery: `floor(files_scanned * 100 / total)`,
/// multiply first, then divide. When the declared total is unknown or zero
/// the percent is zero by explicit policy.
pub open spec fn percent_of(files_scanned: int, total_files: Option<u64>) -> int {
    match total_files {
        Option::None => 0,
        Option::Some(t) => if t == 0 {
            0
        } else {
            (files_scanned * 100) / (t as int)
        },
    }
}

/// How many of the first `n` delivery attempts succeeded.
pub open spec fn delivered_count(d: Seq<bool>, n: int) -> int
    decreases n,
{
    if n <= 0 {
        0
    } else {
        delivered_count(d, n - 1) + (if d[n - 1] {
            1int
        } else {
            0int
        })
    }
}

/// Summed sizes of the files among the first `n` whose delivery succeeded.
pub open spec fn delivered_bytes(files: Seq<FileEntryV>, d: Seq<bool>, n: int) -> int
    decreases n,
{
    if n <= 0 {
        0
    } else {
        delivered_bytes(files, d, n - 1) + (if d[n - 1] {
            files[n - 1].size_bytes as int
        } else {
            0int
        })
    }
}

/// Summed sizes of the first `n` files, delivered or not.
pub open spec fn sum_bytes(files: Seq<FileEntryV>, n: int) -> int
    decreases n,
{
    if n <= 0 {
        0
    } else {
        sum_bytes(files, n - 1) + files[n - 1].size_bytes as int
    }
}

/// The non-fatal event emitted when one file's delivery fails.
pub open spec fn delivery_error_event(path: Seq<char>) -> StampedEventV {
    StampedEventV {
        phase: Phase::Browsing,
        event: BrowseEventV::Error {
            code: ErrorCode::FileDeliveryFailed,
            message: msg_delivery_failed(),
            path: Option::Some(path),
            fatal: false,
        },
    }
}

/// The fatal event emitted when a provider call fails, stamped with the
/// phase that was active when the failure occurred.
pub open spec fn fatal_error_event(phase: Phase, message: Seq<char>) -> StampedEventV {
    StampedEventV {
        phase,
        event: BrowseEventV::Error {
            code: ErrorCode::ProviderUnavailable,
            message,
            path: Option::None,
            fatal: true,
        },
    }
}

/// The events the stream holds for file `i`: on successful delivery the
/// file itself followed by the updated progress, on failure one non-fatal
/// error. A failed file is not counted.
pub open spec fn file_step_events(
    files: Seq<FileEntryV>,
    d: Seq<bool>,
    total_files: Option<u64>,
    i: int,
) -> Seq<StampedEventV> {
    if d[i] {
        seq![
            StampedEventV { phase: Phase::Browsing, event: BrowseEventV::File(files[i]) },
            StampedEventV {
                phase: Phase::Browsing,
                event: BrowseEventV::Progress {
                    files_scanned: delivered_count(d, i + 1),
                    bytes_scanned: delivered_bytes(files, d, i + 1),
                    percent: percent_of(delivered_count(d, i + 1), total_files),
                    current_path: Option::Some(files[i].path),
                },
            },
        ]
    } else {
        seq![delivery_error_event(files[i].path)]
    }
}

/// The events for the first `n` files, in listing order, never reordered.
pub open spec fn body_events(
    files: Seq<FileEntryV>,
    d: Seq<bool>,
    total_files: Option<u64>,
    n: int,
) -> Seq<StampedEventV>
    decreases n,
{
    if n <= 0 {
        Seq::empty()
    } else {
        body_events(files, d, total_files, n - 1) + file_step_events(files, d, total_files, n - 1)
    }
}

/// The two opening events of a session whose metadata fetch succeeded: the
/// metadata stamped `Init`, then the zero progress stamped `Browsing`.
pub open spec fn head_events(info: DatasetInfoV) -> Seq<StampedEventV> {
    seq![
        StampedEventV { phase: Phase::Init, event: BrowseEventV::Info(info) },
        StampedEventV {
            phase: Phase::Browsing,
            event: BrowseEventV::Progress {
                files_scanned: 0,
                bytes_scanned: 0,
                percent: 0,
                current_path: Option::None,
            },
        },
    ]
}

/// Success verdict of a completed session: the scanned counts equal the
/// declared totals. A total that was never declared makes the session
/// unsuccessful, whatever was scanned.
pub open spec fn success_of(
    total_files: Option<u64>,
    total_size_bytes: Option<u64>,
    files_scanned: int,
    bytes_scanned: int,
) -> bool {
    &&& total_files matches Option::Some(t) && t as int == files_scanned
    &&& total_size_bytes matches Option::Some(s) && s as int == bytes_scanned
}

/// The terminal event of a session that exhausted its listing.
pub open spec fn complete_event(
    info: DatasetInfoV,
    files: Seq<FileEntryV>,
    d: Seq<bool>,
    finished_at: Option<Timestamp>,
) -> StampedEventV {
    let fs = delivered_count(d, files.len() as int);
    let bs = delivered_bytes(files, d, files.len() as int);
    StampedEventV {
        phase: Phase::Completed,
        event: BrowseEventV::Complete {
            files_scanned: fs,
            bytes_scanned: bs,
            success: success_of(info.total_files, info.total_size_bytes, fs, bs),
            finished_at,
        },
    }
}

/// The whole event stream of one browse session, as a function of the
/// provider results and the per-file delivery outcomes.
///
/// `info` and `listing` are `None` where the respective provider call
/// failed; `d[i]` says whether file `i`'s delivery succeeded.
pub open spec fn browse_stream(
    info: Option<DatasetInfoV>,
    listing: Option<Seq<FileEntryV>>,
    d: Seq<bool>,
    finished_at: Option<Timestamp>,
) -> Seq<StampedEventV> {
    match info {
        Option::None => seq![fatal_error_event(Phase::Init, msg_info_failed())],
        Option::Some(inf) => match listing {
            Option::None => head_events(inf) + seq![
                fatal_error_event(Phase::Browsing, msg_listing_failed()),
            ],
            Option::Some(files) => head_events(inf) + body_events(
                files,
                d,
                inf.total_files,
                files.len() as int,
            ) + seq![complete_event(inf, files, d, finished_at)],
        },
    }
}

// ---------------------------------------------------------------------------
// Bounds of the accounting functions
// ---------------------------------------------------------------------------

/// At most `n` of the first `n` deliveries succeed, and never a negative
/// number of them.
pub proof fn lemma_delivered_count_bounds(d: Seq<bool>, n: int)
    requires
        n >= 0,
    ensures
        0 <= delivered_count(d, n) <= n,
    decreases n,
{
    if n > 0 {
        lemma_delivered_count_bounds(d, n - 1);
    }
}

/// The delivered bytes of a prefix never exceed the summed sizes of that
/// prefix, and are never negative.
pub proof fn lemma_delivered_bytes_le_sum(files: Seq<FileEntryV>, d: Seq<bool>, n: int)
    requires
        n >= 0,
    ensures
        0 <= delivered_bytes(files, d, n) <= sum_bytes(files, n),
    decreases n,
{
    if n > 0 {
        lemma_delivered_bytes_le_sum(files, d, n - 1);
    }
}

/// Summed sizes grow with the prefix.
pub proof fn lemma_sum_bytes_monotone(files: Seq<FileEntryV>, m: int, n: int)
    requires
        0 <= m <= n,
    ensures
        sum_bytes(files, m) <= sum_bytes(files, n),
    decreases n,
{
    if m < n {
        lemma_sum_bytes_monotone(files, m, n - 1);
    }
}

// ---------------------------------------------------------------------------
// The executable session
// ---------------------------------------------------------------------------

/// State of one browse session.
#[derive(Clone, Copy, Debug, PartialEq, Eq, Structural)]
pub enum BrowseState {
    Init,
    Browsing,
    Completed,
    Aborted,
}

/// One browse session: the phase state machine and its progress counters.
///
/// The declared totals, once recorded from the metadata, are never written
/// again for the life of the session.
#[derive(Clone, Copy, Debug, PartialEq, Eq, Structural)]
pub struct BrowseSession {
    pub state: BrowseState,
    pub total_files: Option<u64>,
    pub total_size_bytes: Option<u64>,
    pub files_scanned: u64,
    pub bytes_scanned: u64,
}

/// Percent after a delivery, as [`percent_of`] states it.
pub fn percent(files_scanned: u64, total_files: Option<u64>) -> (p: u64)
    requires
        files_scanned * 100 <= u64::MAX,
    ensures
        p as int == percent_of(files_scanned as int, total_files),
{
    match total_files {
        Option::None => 0,
        Option::Some(t) => if t == 0 {
            0
        } else {
            (files_scanned * 100) / t
        },
    }
}

impl BrowseSession {
    /// A fresh session: `Init`, nothing scanned, no totals declared.
    pub fn new() -> (s: BrowseSession)
        ensures
            s == (BrowseSession {
                state: BrowseState::Init,
                total_files: Option::None,
                total_size_bytes: Option::None,
                files_scanned: 0,
                bytes_scanned: 0,
            }),
    {
        BrowseSession {
            state: BrowseState::Init,
            total_files: Option::None,
            total_size_bytes: Option::None,
            files_scanned: 0,
            bytes_scanned: 0,
        }
    }

    /// Feed the session the result of the metadata fetch.
    ///
    /// On failure the session aborts with the single fatal error event,
    /// stamped `Init`; no event may follow. On success the session records
    /// the declared totals, enters `Browsing`, and the stream opens with
    /// the metadata and the zero progress.
    pub fn on_info(&mut self, info: Option<DatasetInfo>) -> (out: Vec<StampedEvent>)
        requires
            old(self).state == BrowseState::Init,
        ensures
            info matches Option::None ==> {
                &&& events_view(out@) == seq![fatal_error_event(Phase::Init, msg_info_failed())]
                &&& *final(self) == (BrowseSession { state: BrowseState::Aborted, ..*old(self) })
            },
            info matches Option::Some(i) ==> {
                &&& events_view(out@) == head_events(i@)
                &&& *final(self) == (BrowseSession {
                    state: BrowseState::Browsing,
                    total_files: i.total_files,
                    total_size_bytes: i.total_size_bytes,
                    files_scanned: 0,
                    bytes_scanned: 0,
                })
            },
    {
        let mut out: Vec<StampedEvent> = Vec::new();
        match info {
            Option::None => {
                self.state = BrowseState::Aborted;
                out.push(StampedEvent {
                    phase: Phase::Init,
                    event: BrowseEvent::Error {
                        code: ErrorCode::ProviderUnavailable,
                        message: "dataset metadata unavailable".to_owned(),
                        path: Option::None,
                        fatal: true,
                    },
                });
                proof {
                    assert(events_view(out@) =~= seq![
                        fatal_error_event(Phase::Init, msg_info_failed()),
                    ]);
                }
            },
            Option::Some(i) => {
                self.state = BrowseState::Browsing;
                self.total_files = i.total_files;
                self.total_size_bytes = i.total_size_bytes;
                self.files_scanned = 0;
                self.bytes_scanned = 0;
                let ghost iv = i@;
                out.push(StampedEvent { phase: Phase::Init, event: BrowseEvent::Info(i) });
                out.push(StampedEvent {
                    phase: Phase::Browsing,
                    event: BrowseEvent::Progress {
                        files_scanned: 0,
                        bytes_scanned: 0,
                        percent: 0,
                        current_path: Option::None,
                    },
                });
                proof {
                    assert(events_view(out@) =~= head_events(iv));
                }
            },
        }
        out
    }

    /// Feed the session a failed file-listing fetch: the session aborts
    /// with one fatal error, stamped with the `Browsing` phase active at
    /// failure time.
    pub fn on_listing_failed(&mut self) -> (out: Vec<StampedEvent>)
        requires
            old(self).state == BrowseState::Browsing,
        ensures
            events_view(out@) == seq![fatal_error_event(Phase::Browsing, msg_listing_failed())],
            *final(self) == (BrowseSession { state: BrowseState::Aborted, ..*old(self) }),
    {
        self.state = BrowseState::Aborted;
        let mut out: Vec<StampedEvent> = Vec::new();
        out.push(StampedEvent {
            phase: Phase::Browsing,
            event: BrowseEvent::Error {
                code: ErrorCode::ProviderUnavailable,
                message: "file listing unavailable".to_owned(),
                path: Option::None,
                fatal: true,
            },
        });
        proof {
            assert(events_view(out@) =~= seq![
                fatal_error_event(Phase::Browsing, msg_listing_failed()),
            ]);
        }
        out
    }

    /// The delivery attempt for one file: the event the harness tries to
    /// hand to the consumer.
    pub fn file_event(&self, file: &FileEntry) -> (ev: StampedEvent)
        requires
            self.state == BrowseState::Browsing,
        ensures
            ev@ == (StampedEventV { phase: Phase::Browsing, event: BrowseEventV::File(file@) }),
    {
        StampedEvent {
            phase: Phase::Browsing,
            event: BrowseEvent::File(FileEntry {
                path: file.path.clone(),
                size_bytes: file.size_bytes,
            }),
        }
    }

    /// Feed the session the outcome of one file's delivery attempt.
    ///
    /// On success both counters move and the follow-up event is the updated
    /// progress; on failure the counters stay (the failed file is not
    /// counted) and the follow-up is one non-fatal error. Either way the
    /// session stays in `Browsing` and its declared totals are untouched.
    pub fn on_file_outcome(&mut self, file: &FileEntry, delivered: bool) -> (follow: StampedEvent)
        requires
            old(self).state == BrowseState::Browsing,
            old(self).bytes_scanned + file.size_bytes <= u64::MAX,
            (old(self).files_scanned + 1) * 100 <= u64::MAX,
        ensures
            delivered ==> {
                &&& *final(self) == (BrowseSession {
                    files_scanned: (old(self).files_scanned + 1) as u64,
                    bytes_scanned: (old(self).bytes_scanned + file.size_bytes) as u64,
                    ..*old(self)
                })
                &&& follow@ == (StampedEventV {
                    phase: Phase::Browsing,
                    event: BrowseEventV::Progress {
                        files_scanned: old(self).files_scanned + 1,
                        bytes_scanned: old(self).bytes_scanned + file.size_bytes,
                        percent: percent_of(old(self).files_scanned + 1, old(self).total_files),
                        current_path: Option::Some(file.path@),
                    },
                })
            },
            !delivered ==> {
                &&& *final(self) == *old(self)
                &&& follow@ == delivery_error_event(file.path@)
            },
    {
        if delivered {
            self.files_scanned = self.files_scanned + 1;
            self.bytes_scanned = self.bytes_scanned + file.size_bytes;
            let pct = percent(self.files_scanned, self.total_files);
            StampedEvent {
                phase: Phase::Browsing,
                event: BrowseEvent::Progress {
                    files_scanned: self.files_scanned,
                    bytes_scanned: self.bytes_scanned,
                    percent: pct,
                    current_path: Option::Some(file.path.clone()),
                },
            }
        } else {
            StampedEvent {
                phase: Phase::Browsing,
                event: BrowseEvent::Error {
                    code: ErrorCode::FileDeliveryFailed,
                    message: "file delivery failed".to_owned(),
                    path: Option::Some(file.path.clone()),
                    fatal: false,
                },
            }
        }
    }

    /// Close a session whose listing was exhausted: the terminal `Complete`
    /// event with the final counters and the success verdict.
    pub fn complete(&mut self, finished_at: Option<Timestamp>) -> (ev: StampedEvent)
        requires
            old(self).state == BrowseState::Browsing,
        ensures
            *final(self) == (BrowseSession { state: BrowseState::Completed, ..*old(self) }),
            ev@ == (StampedEventV {
                phase: Phase::Completed,
                event: BrowseEventV::Complete {
                    files_scanned: old(self).files_scanned as int,
                    bytes_scanned: old(self).bytes_scanned as int,
                    success: success_of(
                        old(self).total_files,
                        old(self).total_size_bytes,
                        old(self).files_scanned as int,
                        old(self).bytes_scanned as int,
                    ),
                    finished_at,
                },
            }),
    {
        self.state = BrowseState::Completed;
        let files_ok = match self.total_files {
            Option::Some(t) => t == self.files_scanned,
            Option::None => false,
        };
        let bytes_ok = match self.total_size_bytes {
            Option::Some(s) => s == self.bytes_scanned,
            Option::None => false,
        };
        StampedEvent {
            phase: Phase::Completed,
            event: BrowseEvent::Complete {
                files_scanned: self.files_scanned,
                bytes_scanned: self.bytes_scanned,
                success: files_ok && bytes_ok,
                finished_at,
            },
        }
    }
}

// ---------------------------------------------------------------------------
// Shape of a stream: counting its events
// ---------------------------------------------------------------------------

/// How many `File` events a stream holds.
pub open spec fn file_event_count(s: Seq<StampedEventV>) -> int
    decreases s.len(),
{
    if s.len() == 0 {
        0
    } else {
        file_event_count(s.drop_last()) + (if s.last().event is File {
            1int
        } else {
            0int
        })
    }
}

/// The summed sizes of the files that a stream's `File` events carry.
pub open spec fn file_event_bytes(s: Seq<StampedEventV>) -> int
    decreases s.len(),
{
    if s.len() == 0 {
        0
    } else {
        file_event_bytes(s.drop_last()) + (match s.last().event {
            BrowseEventV::File(f) => f.size_bytes as int,
            _ => 0int,
        })
    }
}

/// The `(files_scanned, bytes_scanned, percent)` triples of a stream's
/// `Progress` events, in stream order.
pub open spec fn progress_marks(s: Seq<StampedEventV>) -> Seq<(int, int, int)>
    decreases s.len(),
{
    if s.len() == 0 {
        Seq::empty()
    } else {
        progress_marks(s.drop_last()) + (match s.last().event {
            BrowseEventV::Progress { files_scanned, bytes_scanned, percent, .. } => seq![
                (files_scanned, bytes_scanned, percent),
            ],
            _ => Seq::empty(),
        })
    }
}

/// No component of a later mark is smaller than in an earlier one.
pub open spec fn marks_non_decreasing(m: Seq<(int, int, int)>) -> bool {
    forall|i: int, j: int|
        0 <= i <= j < m.len() ==> m[i].0 <= m[j].0 && m[i].1 <= m[j].1 && m[i].2 <= m[j].2
}

/// [`file_event_count`] distributes over concatenation.
pub proof fn lemma_file_event_count_concat(a: Seq<StampedEventV>, b: Seq<StampedEventV>)
    ensures
        file_event_count(a + b) == file_event_count(a) + file_event_count(b),
    decreases b.len(),
{
    if b.len() == 0 {
        assert(a + b =~= a);
    } else {
        Seq::drop_last_distributes_over_add(a, b);
        lemma_file_event_count_concat(a, b.drop_last());
        assert((a + b).last() == b.last());
    }
}

/// [`file_event_bytes`] distributes over concatenation.
pub proof fn lemma_file_event_bytes_concat(a: Seq<StampedEventV>, b: Seq<StampedEventV>)
    ensures
        file_event_bytes(a + b) == file_event_bytes(a) + file_event_bytes(b),
    decreases b.len(),
{
    if b.len() == 0 {
        assert(a + b =~= a);
    } else {
        Seq::drop_last_distributes_over_add(a, b);
        lemma_file_event_bytes_concat(a, b.drop_last());
        assert((a + b).last() == b.last());
    }
}

/// [`progress_marks`] distributes over concatenation.
pub proof fn lemma_progress_marks_concat(a: Seq<StampedEventV>, b: Seq<StampedEventV>)
    ensures
        progress_marks(a + b) == progress_marks(a) + progress_marks(b),
    decreases b.len(),
{
    if b.len() == 0 {
        assert(a + b =~= a);
        assert(progress_marks(a) + progress_marks(b) =~= progress_marks(a));
    } else {
        Seq::drop_last_distributes_over_add(a, b);
        lemma_progress_marks_concat(a, b.drop_last());
        assert((a + b).last() == b.last());
        assert(progress_marks(a + b) =~= progress_marks(a) + progress_marks(b));
    }
}

/// The `File` events of a body are the delivered files, counted and summed.
pub proof fn lemma_body_accounting(files: Seq<FileEntryV>, d: Seq<bool>, t: Option<u64>, n: int)
    requires
        n >= 0,
    ensures
        file_event_count(body_events(files, d, t, n)) == delivered_count(d, n),
        file_event_bytes(body_events(files, d, t, n)) == delivered_bytes(files, d, n),
    decreases n,
{
    if n > 0 {
        lemma_body_accounting(files, d, t, n - 1);
        let prev = body_events(files, d, t, n - 1);
        let step = file_step_events(files, d, t, n - 1);
        lemma_file_event_count_concat(prev, step);
        lemma_file_event_bytes_concat(prev, step);
        assert(file_event_count(Seq::<StampedEventV>::empty()) == 0);
        assert(file_event_bytes(Seq::<StampedEventV>::empty()) == 0);
        if d[n - 1] {
            assert(step.drop_last() =~= seq![step[0]]);
            assert(seq![step[0]].drop_last() =~= Seq::<StampedEventV>::empty());
            assert(file_event_count(seq![step[0]]) == 1);
            assert(file_event_bytes(seq![step[0]]) == files[n - 1].size_bytes as int);
            assert(file_event_count(step) == 1);
            assert(file_event_bytes(step) == files[n - 1].size_bytes as int);
        } else {
            assert(step.drop_last() =~= Seq::<StampedEventV>::empty());
            assert(file_event_count(step) == 0);
            assert(file_event_bytes(step) == 0);
        }
    }
}

/// What a body event may be: a file, a progress, or a non-fatal delivery
/// error, all stamped `Browsing`. In particular a body holds no `Complete`,
/// no `Info` and nothing fatal.
pub open spec fn is_browsing_event(ev: StampedEventV) -> bool {
    &&& ev.phase == Phase::Browsing
    &&& match ev.event {
        BrowseEventV::File(_) => true,
        BrowseEventV::Progress { .. } => true,
        BrowseEventV::Error { code, fatal, .. } => code == ErrorCode::FileDeliveryFailed
            && !fatal,
        _ => false,
    }
}

/// Every event of a body is a browsing event.
pub proof fn lemma_body_events_shape(files: Seq<FileEntryV>, d: Seq<bool>, t: Option<u64>, n: int)
    requires
        n >= 0,
    ensures
        forall|i: int|
            0 <= i < body_events(files, d, t, n).len() ==> is_browsing_event(
                #[trigger] body_events(files, d, t, n)[i],
            ),
    decreases n,
{
    if n > 0 {
        lemma_body_events_shape(files, d, t, n - 1);
        let prev = body_events(files, d, t, n - 1);
        let step = file_step_events(files, d, t, n - 1);
        assert forall|i: int|
            0 <= i < body_events(files, d, t, n).len() implies is_browsing_event(
            body_events(files, d, t, n)[i],
        ) by {
            if i < prev.len() {
                assert(body_events(files, d, t, n)[i] == prev[i]);
                assert(is_browsing_event(prev[i]));
            } else {
                assert(body_events(files, d, t, n)[i] == step[i - prev.len()]);
            }
        }
    }
}

// ---------------------------------------------------------------------------
// Monotonicity of the percent
// ---------------------------------------------------------------------------

/// The percent never moves backwards as the scanned count grows.
pub proof fn lemma_percent_of_monotone(a: int, b: int, t: Option<u64>)
    requires
        0 <= a <= b,
    ensures
        percent_of(a, t) <= percent_of(b, t),
{
    match t {
        Option::None => {},
        Option::Some(tv) => {
            if tv != 0 {
                assert(a * 100 <= b * 100);
                lemma_div_is_ordered(a * 100, b * 100, tv as int);
            }
        },
    }
}

/// The percent of a non-negative count is non-negative.
pub proof fn lemma_percent_of_nonneg(a: int, t: Option<u64>)
    requires
        a >= 0,
    ensures
        percent_of(a, t) >= 0,
{
    match t {
        Option::None => {},
        Option::Some(tv) => {
            if tv != 0 {
                assert(a * 100 >= 0);
                lemma_div_basics(tv as int);
                lemma_div_is_ordered(0, a * 100, tv as int);
            }
        },
    }
}

/// The progress marks of a body are non-negative, componentwise
/// non-decreasing, and never above the body's final counts.
pub proof fn lemma_body_marks(files: Seq<FileEntryV>, d: Seq<bool>, t: Option<u64>, n: int)
    requires
        n >= 0,
    ensures
        ({
            let m = progress_marks(body_events(files, d, t, n));
            &&& marks_non_decreasing(m)
            &&& forall|k: int|
                0 <= k < m.len() ==> {
                    &&& 0 <= (#[trigger] m[k]).0 <= delivered_count(d, n)
                    &&& 0 <= m[k].1 <= delivered_bytes(files, d, n)
                    &&& 0 <= m[k].2 <= percent_of(delivered_count(d, n), t)
                }
        }),
    decreases n,
{
    if n > 0 {
        lemma_body_marks(files, d, t, n - 1);
        let prev = body_events(files, d, t, n - 1);
        let step = file_step_events(files, d, t, n - 1);
        lemma_progress_marks_concat(prev, step);
        lemma_delivered_count_bounds(d, n - 1);
        lemma_delivered_bytes_le_sum(files, d, n - 1);
        lemma_percent_of_monotone(delivered_count(d, n - 1), delivered_count(d, n), t);
        lemma_percent_of_nonneg(delivered_count(d, n), t);
        let mprev = progress_marks(prev);
        let m = progress_marks(body_events(files, d, t, n));
        let mark_n = (delivered_count(d, n), delivered_bytes(files, d, n), percent_of(
            delivered_count(d, n),
            t,
        ));
        assert(progress_marks(Seq::<StampedEventV>::empty()) =~= Seq::<(int, int, int)>::empty());
        if d[n - 1] {
            assert(step.drop_last() =~= seq![step[0]]);
            assert(seq![step[0]].drop_last() =~= Seq::<StampedEventV>::empty());
            assert(progress_marks(seq![step[0]]) =~= Seq::<(int, int, int)>::empty());
            assert(progress_marks(step) =~= seq![mark_n]);
        } else {
            assert(step.drop_last() =~= Seq::<StampedEventV>::empty());
            assert(progress_marks(step) =~= Seq::<(int, int, int)>::empty());
        }
        assert forall|i: int, j: int| 0 <= i <= j < m.len() implies m[i].0 <= m[j].0 && m[i].1
            <= m[j].1 && m[i].2 <= m[j].2 by {
            if j < mprev.len() {
                assert(mprev[i].0 <= mprev[j].0 && mprev[i].1 <= mprev[j].1 && mprev[i].2
                    <= mprev[j].2);
            } else {
                assert(m[j] == mark_n);
                if i < mprev.len() {
                    assert(mprev[i].0 <= delivered_count(d, n - 1));
                    assert(mprev[i].1 <= delivered_bytes(files, d, n - 1));
                    assert(mprev[i].2 <= percent_of(delivered_count(d, n - 1), t));
                }
            }
        }
    }
}

// ---------------------------------------------------------------------------
// Laws of the stream
// ---------------------------------------------------------------------------

/// LAW. If the metadata fetch fails, the stream holds exactly one event: a
/// fatal `ProviderUnavailable` error stamped `Init`. The stream then
/// closes; in particular no `Complete` event is ever emitted.
pub proof fn lemma_info_failure_stream(
    listing: Option<Seq<FileEntryV>>,
    d: Seq<bool>,
    finished_at: Option<Timestamp>,
)
    ensures
        ({
            let s = browse_stream(Option::None, listing, d, finished_at);
            &&& s.len() == 1
            &&& s[0] == fatal_error_event(Phase::Init, msg_info_failed())
            &&& forall|i: int| 0 <= i < s.len() ==> !(#[trigger] s[i].event is Complete)
        }),
{
}

/// LAW. If the listing fetch fails, the stream is the metadata, the zero
/// progress, then one fatal error stamped with the `Browsing` phase active
/// at failure time — and again no `Complete` event.
pub proof fn lemma_listing_failure_stream(
    info: DatasetInfoV,
    d: Seq<bool>,
    finished_at: Option<Timestamp>,
)
    ensures
        ({
            let s = browse_stream(Option::Some(info), Option::None, d, finished_at);
            &&& s.len() == 3
            &&& s == head_events(info) + seq![
                fatal_error_event(Phase::Browsing, msg_listing_failed()),
            ]
            &&& forall|i: int| 0 <= i < s.len() ==> !(#[trigger] s[i].event is Complete)
        }),
{
    let s = browse_stream(Option::Some(info), Option::None, d, finished_at);
    assert forall|i: int| 0 <= i < s.len() implies !(s[i].event is Complete) by {
        assert(s.len() == 3);
        if i == 0 {
            assert(s[0] == head_events(info)[0]);
        } else if i == 1 {
            assert(s[1] == head_events(info)[1]);
        } else {
            assert(s[2] == fatal_error_event(Phase::Browsing, msg_listing_failed()));
        }
    }
}

/// LAW. For any session that reaches `Complete`, the `files_scanned` the
/// terminal event carries equals the number of `File` events the stream
/// holds — the successfully delivered ones — and `bytes_scanned` equals
/// their summed sizes. The stream opens with the metadata stamped `Init`
/// and the zero progress; the `Complete` event is the last event and the
/// only one of its kind.
pub proof fn lemma_complete_accounting(
    info: DatasetInfoV,
    files: Seq<FileEntryV>,
    d: Seq<bool>,
    finished_at: Option<Timestamp>,
)
    requires
        d.len() == files.len(),
    ensures
        ({
            let s = browse_stream(Option::Some(info), Option::Some(files), d, finished_at);
            &&& s.len() >= 3
            &&& s[0] == (StampedEventV { phase: Phase::Init, event: BrowseEventV::Info(info) })
            &&& s[1] == head_events(info)[1]
            &&& s.last() == complete_event(info, files, d, finished_at)
            &&& (s.last().event matches BrowseEventV::Complete { files_scanned, bytes_scanned, .. }
                && files_scanned == file_event_count(s) && bytes_scanned == file_event_bytes(s))
            &&& forall|i: int| 0 <= i < s.len() - 1 ==> !(#[trigger] s[i].event is Complete)
        }),
{
    let n = files.len() as int;
    let head = head_events(info);
    let body = body_events(files, d, info.total_files, n);
    let tail = seq![complete_event(info, files, d, finished_at)];
    let s = browse_stream(Option::Some(info), Option::Some(files), d, finished_at);
    assert(s == head + body + tail);
    lemma_body_accounting(files, d, info.total_files, n);
    lemma_file_event_count_concat(head + body, tail);
    lemma_file_event_count_concat(head, body);
    lemma_file_event_bytes_concat(head + body, tail);
    lemma_file_event_bytes_concat(head, body);
    assert(file_event_count(Seq::<StampedEventV>::empty()) == 0);
    assert(file_event_bytes(Seq::<StampedEventV>::empty()) == 0);
    assert(head.drop_last() =~= seq![head[0]]);
    assert(seq![head[0]].drop_last() =~= Seq::<StampedEventV>::empty());
    assert(file_event_count(seq![head[0]]) == 0);
    assert(file_event_bytes(seq![head[0]]) == 0);
    assert(file_event_count(head) == 0);
    assert(file_event_bytes(head) == 0);
    assert(tail.drop_last() =~= Seq::<StampedEventV>::empty());
    assert(file_event_count(tail) == 0);
    assert(file_event_bytes(tail) == 0);
    assert(s.last() == tail[0]);
    lemma_body_events_shape(files, d, info.total_files, n);
    assert forall|i: int| 0 <= i < s.len() - 1 implies !(s[i].event is Complete) by {
        if i == 0 {
            assert(s[0] == head[0]);
        } else if i == 1 {
            assert(s[1] == head[1]);
        } else {
            assert(s[i] == body[i - 2]);
            assert(is_browsing_event(body[i - 2]));
        }
    }
}

/// LAW. `success` in the terminal `Complete` event is true iff the scanned
/// counts it carries equal the dataset's declared totals — both of them,
/// and an undeclared total never counts as met.
pub proof fn lemma_success_criterion(
    info: DatasetInfoV,
    files: Seq<FileEntryV>,
    d: Seq<bool>,
    finished_at: Option<Timestamp>,
)
    requires
        d.len() == files.len(),
    ensures
        ({
            let s = browse_stream(Option::Some(info), Option::Some(files), d, finished_at);
            s.last().event matches BrowseEventV::Complete { files_scanned, bytes_scanned, success, .. }
                && (success <==> success_of(
                info.total_files,
                info.total_size_bytes,
                files_scanned,
                bytes_scanned,
            ))
        }),
{
    let n = files.len() as int;
    let head = head_events(info);
    let body = body_events(files, d, info.total_files, n);
    let tail = seq![complete_event(info, files, d, finished_at)];
    let s = browse_stream(Option::Some(info), Option::Some(files), d, finished_at);
    assert(s == head + body + tail);
    assert(s.last() == tail[0]);
}

/// LAW. Within one session the `Progress` events never move backwards:
/// `files_scanned`, `bytes_scanned` and `percent` are each monotonically
/// non-decreasing along the stream, whatever the provider results and the
/// delivery outcomes.
pub proof fn lemma_progress_monotone(
    info: Option<DatasetInfoV>,
    listing: Option<Seq<FileEntryV>>,
    d: Seq<bool>,
    finished_at: Option<Timestamp>,
)
    ensures
        marks_non_decreasing(progress_marks(browse_stream(info, listing, d, finished_at))),
{
    let s = browse_stream(info, listing, d, finished_at);
    let empty_marks = Seq::<(int, int, int)>::empty();
    let zero_mark = (0int, 0int, 0int);
    match info {
        Option::None => {
            assert(progress_marks(Seq::<StampedEventV>::empty()) =~= empty_marks);
            assert(s.drop_last() =~= Seq::<StampedEventV>::empty());
            assert(progress_marks(s) =~= empty_marks);
        },
        Option::Some(inf) => {
            let head = head_events(inf);
            assert(progress_marks(Seq::<StampedEventV>::empty()) =~= empty_marks);
            assert(head.drop_last() =~= seq![head[0]]);
            assert(seq![head[0]].drop_last() =~= Seq::<StampedEventV>::empty());
            assert(progress_marks(seq![head[0]]) =~= empty_marks);
            assert(progress_marks(head) =~= seq![zero_mark]);
            match listing {
                Option::None => {
                    let tail = seq![fatal_error_event(Phase::Browsing, msg_listing_failed())];
                    assert(s == head + tail);
                    lemma_progress_marks_concat(head, tail);
                    assert(tail.drop_last() =~= Seq::<StampedEventV>::empty());
                    assert(progress_marks(tail) =~= empty_marks);
                    assert(progress_marks(s) =~= seq![zero_mark]);
                },
                Option::Some(files) => {
                    let n = files.len() as int;
                    let body = body_events(files, d, inf.total_files, n);
                    let tail = seq![complete_event(inf, files, d, finished_at)];
                    assert(s == head + body + tail);
                    lemma_progress_marks_concat(head + body, tail);
                    lemma_progress_marks_concat(head, body);
                    assert(tail.drop_last() =~= Seq::<StampedEventV>::empty());
                    assert(progress_marks(tail) =~= empty_marks);
                    lemma_body_marks(files, d, inf.total_files, n);
                    let mb = progress_marks(body);
                    let m = progress_marks(s);
                    assert(m =~= seq![zero_mark] + mb);
                    assert forall|i: int, j: int| 0 <= i <= j < m.len() implies m[i].0 <= m[j].0
                        && m[i].1 <= m[j].1 && m[i].2 <= m[j].2 by {
                        if i == 0 {
                            if j > 0 {
                                assert(m[j] == mb[j - 1]);
                                assert(mb[j - 1].0 >= 0 && mb[j - 1].1 >= 0 && mb[j - 1].2 >= 0);
                            }
                        } else {
                            assert(m[i] == mb[i - 1]);
                            assert(m[j] == mb[j - 1]);
                            assert(mb[i - 1].0 <= mb[j - 1].0 && mb[i - 1].1 <= mb[j - 1].1 && mb[i
                                - 1].2 <= mb[j - 1].2);
                        }
                    }
                },
            }
        },
    }
}

} // verus!
