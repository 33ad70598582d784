//! Request packager: a middleware between a client, a dataset-metadata
//! provider, a tool catalog, and an environment launcher.
//!
//! The crate holds the two decision cores of that middleware:
//! the dataset-browse phase state machine with its progress accounting and
//! partial-failure semantics, and the package-assembly engine that validates
//! a file selection against a tool descriptor and plans at most one launch
//! call. Provider calls and transport live outside the library; the library
//! takes their results as plain values and is verified for every value.

pub mod assemble;
pub mod browse;
pub mod domain;

use vstd::prelude::*;

use crate::browse::{
    BrowseSession, BrowseState, browse_stream, body_events, delivered_bytes, delivered_count,
    head_events, lemma_delivered_bytes_le_sum, lemma_delivered_count_bounds,
    lemma_sum_bytes_monotone, sum_bytes,
};
use crate::domain::{
    DatasetInfo, DatasetInfoV, FileEntry, StampedEvent, Timestamp, events_view, files_view,
    lemma_events_view_concat, lemma_events_view_push, opt_info_view, opt_listing_view,
};

verus! {

/// The packager service: the decision cores of the two exposed operations.
///
/// The object holds no state of its own; every browse session and every
/// assembly request is independent. Provider calls and transport belong to
/// the surrounding harness, which hands their results in as plain values.
pub struct Packager {}

impl Packager {
    /// A fresh packager.
    pub fn new() -> (p: Packager)
        ensures
            p == (Packager {}),
    {
        Packager {}
    }

    /// The event stream of one browse session, as a function of the
    /// provider results and the per-file delivery outcomes.
    ///
    /// `info` and `listing` are `None` where the respective provider call
    /// failed; `delivered[i]` says whether the delivery of file `i`'s event
    /// reached the consumer. The result is exactly the stream that
    /// [`browse_stream`] states: a lone fatal error when the metadata fetch
    /// failed; the metadata, the zero progress and a fatal error when the
    /// listing fetch failed; otherwise the metadata, the zero progress, the
    /// per-file events in listing order, and one terminal `Complete`.
    ///
    /// The two bounds in `requires` are machine limits: the percent
    /// computation must fit in 64 bits, and so must the byte counter.
    pub fn browse_dataset(
        &self,
        info: Option<DatasetInfo>,
        listing: Option<Vec<FileEntry>>,
        delivered: Vec<bool>,
        finished_at: Option<Timestamp>,
    ) -> (out: Vec<StampedEvent>)
        requires
            listing matches Option::Some(files) ==> {
                &&& delivered@.len() == files@.len()
                &&& files@.len() <= 0xffff_ffff
                &&& sum_bytes(files_view(files@), files@.len() as int) <= u64::MAX
            },
        ensures
            events_view(out@) == browse_stream(
                opt_info_view(info),
                opt_listing_view(listing),
                delivered@,
                finished_at,
            ),
    {
        let ghost d = delivered@;
        let mut session = BrowseSession::new();
        match info {
            Option::None => {
                let out = session.on_info(Option::None);
                out
            },
            Option::Some(i) => {
                let ghost inf: DatasetInfoV = i@;
                let mut out = session.on_info(Option::Some(i));
                match listing {
                    Option::None => {
                        let mut tail = session.on_listing_failed();
                        proof {
                            lemma_events_view_concat(out@, tail@);
                        }
                        out.append(&mut tail);
                        out
                    },
                    Option::Some(files) => {
                        let ghost filesv = files_view(files@);
                        let n = files.len();
                        let mut i: usize = 0;
                        while i < n
                            invariant
                                i <= n,
                                n == files@.len(),
                                d.len() == n as int,
                                n <= 0xffff_ffff,
                                sum_bytes(filesv, n as int) <= u64::MAX,
                                filesv == files_view(files@),
                                d == delivered@,
                                session.state == BrowseState::Browsing,
                                session.total_files == inf.total_files,
                                session.total_size_bytes == inf.total_size_bytes,
                                session.files_scanned as int == delivered_count(d, i as int),
                                session.bytes_scanned as int == delivered_bytes(
                                    filesv,
                                    d,
                                    i as int,
                                ),
                                events_view(out@) == head_events(inf) + body_events(
                                    filesv,
                                    d,
                                    inf.total_files,
                                    i as int,
                                ),
                            decreases n - i,
                        {
                            proof {
                                lemma_delivered_count_bounds(d, i as int);
                                lemma_delivered_bytes_le_sum(filesv, d, i as int);
                                lemma_sum_bytes_monotone(filesv, i as int + 1, n as int);
                                assert(filesv[i as int] == files@[i as int]@);
                            }
                            let ev = session.file_event(&files[i]);
                            let ok = delivered[i];
                            let follow = session.on_file_outcome(&files[i], ok);
                            if ok {
                                proof {
                                    lemma_events_view_push(out@, ev);
                                }
                                out.push(ev);
                            }
                            proof {
                                lemma_events_view_push(out@, follow);
                            }
                            out.push(follow);
                            proof {
                                assert(events_view(out@) =~= head_events(inf) + body_events(
                                    filesv,
                                    d,
                                    inf.total_files,
                                    i as int + 1,
                                ));
                            }
                            i = i + 1;
                        }
                        let last = session.complete(finished_at);
                        proof {
                            lemma_events_view_push(out@, last);
                        }
                        out.push(last);
                        proof {
                            assert(events_view(out@) =~= browse_stream(
                                opt_info_view(info),
                                opt_listing_view(listing),
                                d,
                                finished_at,
                            ));
                        }
                        out
                    },
                }
            },
        }
    }
}

impl Default for Packager {
    /// Same as [`Packager::new`].
    fn default() -> (p: Packager)
        ensures
            p == (Packager {}),
    {
        Packager {}
    }
}

} // verus!
