use req_packager::Packager;
use req_packager::browse::{BrowseSession, BrowseState, percent};
use req_packager::domain::{BrowseEvent, DatasetInfo, ErrorCode, FileEntry, Phase, Timestamp};

fn sample_info(total_files: Option<u64>, total_size_bytes: Option<u64>) -> DatasetInfo {
    DatasetInfo {
        repo_url: "http://onedata.com".to_string(),
        dataset_id: "xxx-pid".to_string(),
        description: "example01".to_string(),
        total_files,
        total_size_bytes,
        created_at: Some(Timestamp { seconds: 0, nanos: 0 }),
        updated_at: Some(Timestamp { seconds: 0, nanos: 0 }),
        tags: Vec::new(),
    }
}

fn three_files() -> Vec<FileEntry> {
    vec![
        FileEntry { path: "data/a.bin".to_string(), size_bytes: 100 },
        FileEntry { path: "data/b.bin".to_string(), size_bytes: 100 },
        FileEntry { path: "data/c.bin".to_string(), size_bytes: 100 },
    ]
}

#[test]
fn metadata_failure_emits_one_fatal_error() {
    let p = Packager::new();
    let out = p.browse_dataset(None, None, Vec::new(), None);
    assert_eq!(out.len(), 1);
    assert!(matches!(out[0].phase, Phase::Init));
    match &out[0].event {
        BrowseEvent::Error { code, fatal, path, .. } => {
            assert!(matches!(code, ErrorCode::ProviderUnavailable));
            assert!(*fatal);
            assert!(path.is_none());
        }
        _ => panic!("expected a fatal error event"),
    }
}

#[test]
fn listing_failure_aborts_in_browsing_phase() {
    let p = Packager::new();
    let out = p.browse_dataset(Some(sample_info(Some(3), Some(300))), None, Vec::new(), None);
    assert_eq!(out.len(), 3);
    assert!(matches!(out[0].phase, Phase::Init));
    assert!(matches!(out[0].event, BrowseEvent::Info(_)));
    assert!(matches!(out[1].phase, Phase::Browsing));
    match &out[1].event {
        BrowseEvent::Progress { files_scanned, bytes_scanned, percent, current_path } => {
            assert_eq!(*files_scanned, 0);
            assert_eq!(*bytes_scanned, 0);
            assert_eq!(*percent, 0);
            assert!(current_path.is_none());
        }
        _ => panic!("expected the zero progress event"),
    }
    assert!(matches!(out[2].phase, Phase::Browsing));
    match &out[2].event {
        BrowseEvent::Error { code, fatal, .. } => {
            assert!(matches!(code, ErrorCode::ProviderUnavailable));
            assert!(*fatal);
        }
        _ => panic!("expected a fatal error event"),
    }
    // no Complete event after an abort
    for ev in &out {
        assert!(!matches!(ev.event, BrowseEvent::Complete { .. }));
    }
}

#[test]
fn all_three_files_delivered_completes_successfully() {
    let p = Packager::new();
    let finished = Some(Timestamp { seconds: 7, nanos: 0 });
    let out = p.browse_dataset(
        Some(sample_info(Some(3), Some(300))),
        Some(three_files()),
        vec![true, true, true],
        finished,
    );
    // Info, Progress0, then (File, Progress) x 3, then Complete
    assert_eq!(out.len(), 9);
    match &out[8].event {
        BrowseEvent::Complete { files_scanned, bytes_scanned, success, finished_at } => {
            assert_eq!(*files_scanned, 3);
            assert_eq!(*bytes_scanned, 300);
            assert!(*success);
            assert_eq!(*finished_at, finished);
        }
        _ => panic!("expected the terminal Complete event"),
    }
    assert!(matches!(out[8].phase, Phase::Completed));
    // exact percent values: floor(k * 100 / 3)
    let mut percents = Vec::new();
    for ev in &out {
        if let BrowseEvent::Progress { percent, .. } = &ev.event {
            percents.push(*percent);
        }
    }
    assert_eq!(percents, vec![0, 33, 66, 100]);
    // the delivered files appear in listing order
    let mut paths = Vec::new();
    for ev in &out {
        if let BrowseEvent::File(f) = &ev.event {
            paths.push(f.path.clone());
        }
    }
    assert_eq!(paths, vec!["data/a.bin", "data/b.bin", "data/c.bin"]);
}

#[test]
fn one_failed_delivery_completes_without_success() {
    let p = Packager::new();
    let out = p.browse_dataset(
        Some(sample_info(Some(3), Some(300))),
        Some(three_files()),
        vec![true, false, true],
        None,
    );
    // Info, Progress0, File a, Progress, Error b, File c, Progress, Complete
    assert_eq!(out.len(), 8);
    match &out[4].event {
        BrowseEvent::Error { code, fatal, path, .. } => {
            assert!(matches!(code, ErrorCode::FileDeliveryFailed));
            assert!(!*fatal);
            assert_eq!(path.as_deref(), Some("data/b.bin"));
        }
        _ => panic!("expected the non-fatal delivery error"),
    }
    match &out[7].event {
        BrowseEvent::Complete { files_scanned, bytes_scanned, success, .. } => {
            assert_eq!(*files_scanned, 2);
            assert_eq!(*bytes_scanned, 200);
            assert!(!*success);
        }
        _ => panic!("expected the terminal Complete event"),
    }
}

#[test]
fn complete_counts_match_the_delivered_file_events() {
    let p = Packager::new();
    let files: Vec<FileEntry> = (0..6)
        .map(|i| FileEntry { path: format!("d/f{}", i), size_bytes: 10 * (i + 1) })
        .collect();
    let out = p.browse_dataset(
        Some(sample_info(Some(6), Some(210))),
        Some(files),
        vec![true, true, false, true, false, true],
        None,
    );
    let mut file_events: u64 = 0;
    let mut file_bytes: u64 = 0;
    for ev in &out {
        if let BrowseEvent::File(f) = &ev.event {
            file_events += 1;
            file_bytes += f.size_bytes;
        }
    }
    match &out[out.len() - 1].event {
        BrowseEvent::Complete { files_scanned, bytes_scanned, success, .. } => {
            assert_eq!(*files_scanned, file_events);
            assert_eq!(*bytes_scanned, file_bytes);
            assert_eq!(file_events, 4);
            assert_eq!(file_bytes, 10 + 20 + 40 + 60);
            assert!(!*success);
        }
        _ => panic!("expected the terminal Complete event"),
    }
}

#[test]
fn tag_keys_are_checked_for_uniqueness() {
    let mut info = sample_info(None, None);
    info.tags = vec![
        ("domain".to_string(), "genomics".to_string()),
        ("license".to_string(), "CC-BY".to_string()),
    ];
    assert!(info.tags_unique());
    info.tags.push(("domain".to_string(), "proteomics".to_string()));
    assert!(!info.tags_unique());
}

#[test]
fn unknown_or_zero_total_reports_zero_percent() {
    let p = Packager::new();
    for info in [sample_info(None, None), sample_info(Some(0), Some(0))] {
        let out = p.browse_dataset(
            Some(info),
            Some(three_files()),
            vec![true, true, true],
            None,
        );
        for ev in &out {
            if let BrowseEvent::Progress { percent, .. } = &ev.event {
                assert_eq!(*percent, 0);
            }
        }
    }
}

#[test]
fn undeclared_totals_never_count_as_success() {
    let p = Packager::new();
    let out = p.browse_dataset(
        Some(sample_info(None, None)),
        Some(three_files()),
        vec![true, true, true],
        None,
    );
    match &out[out.len() - 1].event {
        BrowseEvent::Complete { files_scanned, bytes_scanned, success, .. } => {
            assert_eq!(*files_scanned, 3);
            assert_eq!(*bytes_scanned, 300);
            assert!(!*success);
        }
        _ => panic!("expected the terminal Complete event"),
    }
}

#[test]
fn percents_are_monotone_with_mixed_outcomes() {
    let p = Packager::new();
    let files: Vec<FileEntry> = (0..10)
        .map(|i| FileEntry { path: format!("f{}", i), size_bytes: 10 })
        .collect();
    let delivered = vec![true, false, true, true, false, false, true, true, true, false];
    let out = p.browse_dataset(
        Some(sample_info(Some(7), Some(70))),
        Some(files),
        delivered,
        None,
    );
    let mut last: u64 = 0;
    for ev in &out {
        if let BrowseEvent::Progress { percent, .. } = &ev.event {
            assert!(*percent >= last);
            last = *percent;
        }
    }
}

#[test]
fn percent_formula_multiplies_then_divides() {
    assert_eq!(percent(1, Some(3)), 33);
    assert_eq!(percent(2, Some(3)), 66);
    assert_eq!(percent(3, Some(3)), 100);
    assert_eq!(percent(1, Some(7)), 14);
    assert_eq!(percent(5, None), 0);
    assert_eq!(percent(5, Some(0)), 0);
    assert_eq!(percent(4, Some(3)), 133);
}

#[test]
fn session_walks_init_browsing_completed() {
    let mut s = BrowseSession::new();
    assert!(matches!(s.state, BrowseState::Init));
    let opening = s.on_info(Some(sample_info(Some(2), Some(30))));
    assert_eq!(opening.len(), 2);
    assert!(matches!(s.state, BrowseState::Browsing));
    assert_eq!(s.total_files, Some(2));
    assert_eq!(s.total_size_bytes, Some(30));

    let f1 = FileEntry { path: "a/x".to_string(), size_bytes: 10 };
    let ev = s.file_event(&f1);
    assert!(matches!(ev.event, BrowseEvent::File(_)));
    let follow = s.on_file_outcome(&f1, true);
    match follow.event {
        BrowseEvent::Progress { files_scanned, bytes_scanned, percent, current_path } => {
            assert_eq!(files_scanned, 1);
            assert_eq!(bytes_scanned, 10);
            assert_eq!(percent, 50);
            assert_eq!(current_path.as_deref(), Some("a/x"));
        }
        _ => panic!("expected a progress event"),
    }

    let f2 = FileEntry { path: "a/y".to_string(), size_bytes: 20 };
    let follow = s.on_file_outcome(&f2, false);
    assert!(matches!(
        follow.event,
        BrowseEvent::Error { code: ErrorCode::FileDeliveryFailed, fatal: false, .. }
    ));
    assert_eq!(s.files_scanned, 1);
    assert_eq!(s.bytes_scanned, 10);

    let last = s.complete(None);
    assert!(matches!(s.state, BrowseState::Completed));
    match last.event {
        BrowseEvent::Complete { files_scanned, bytes_scanned, success, .. } => {
            assert_eq!(files_scanned, 1);
            assert_eq!(bytes_scanned, 10);
            assert!(!success);
        }
        _ => panic!("expected the terminal Complete event"),
    }
}

#[test]
fn session_aborts_on_metadata_failure() {
    let mut s = BrowseSession::new();
    let out = s.on_info(None);
    assert_eq!(out.len(), 1);
    assert!(matches!(s.state, BrowseState::Aborted));
}

#[test]
fn session_aborts_on_listing_failure() {
    let mut s = BrowseSession::new();
    let _ = s.on_info(Some(sample_info(None, None)));
    let out = s.on_listing_failed();
    assert_eq!(out.len(), 1);
    assert!(matches!(s.state, BrowseState::Aborted));
    assert!(matches!(out[0].phase, Phase::Browsing));
}
