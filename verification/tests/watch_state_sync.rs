use jomai::document_events::DocumentEvent;
use jomai::documents::Document;
use jomai::documents::DocumentId;
use jomai::jobs::JobProgress;
use jomai::jobs::JobReport;
use jomai::jobs::JobStatus;
use jomai::jobs::JobType;
use jomai::time::Timestamp;
use jomai::watch_state_sync::WatchEvent;
use jomai::watch_state_sync::WatchStateSync;
use jomai::watches::Watch;
use jomai::watches::WatchFull;
use jomai::watches::WatchId;
use jomai::watches::WatchStatus;

fn watch(id: i64, secs: i64, status: WatchStatus) -> Watch {
    Watch {
        id: WatchId(id),
        path: format!("/w{}", id),
        status,
        created_at: Timestamp { secs, nanos: 0 },
    }
}

fn document(watch_id: i64) -> Document {
    Document {
        id: DocumentId(1),
        path: "/w/a.md".to_string(),
        watch_id: WatchId(watch_id),
        created_at: Timestamp { secs: 0, nanos: 0 },
        indexed_at: None,
    }
}

fn report(w: &Watch, done: u32, status: JobStatus) -> JobReport {
    JobReport {
        watch: w.clone(),
        progress: JobProgress::new(done, 1, done + 2),
        job_type: JobType::SyncWatch,
        status,
    }
}

fn counts(state: &WatchStateSync) -> Vec<(i64, u32)> {
    state.state().watches.iter().map(|w| (w.id.0, w.document_count)).collect()
}

#[test]
fn snapshot_is_oldest_first() {
    let state = WatchStateSync::new()
        .load_watch(watch(1, 30, WatchStatus::Active), 3)
        .load_watch(watch(2, 10, WatchStatus::Active), 5)
        .load_watch(watch(3, 20, WatchStatus::Active), 7);
    assert_eq!(counts(&state), vec![(2, 5), (3, 7), (1, 3)]);
    let nanos = WatchStateSync::new()
        .load_watch(
            Watch {
                id: WatchId(1),
                path: "/a".to_string(),
                status: WatchStatus::Active,
                created_at: Timestamp { secs: 5, nanos: 9 },
            },
            0,
        )
        .load_watch(
            Watch {
                id: WatchId(2),
                path: "/b".to_string(),
                status: WatchStatus::Active,
                created_at: Timestamp { secs: 5, nanos: 1 },
            },
            0,
        );
    assert_eq!(counts(&nanos), vec![(2, 0), (1, 0)]);
}

#[test]
fn watches_created_together_come_after_the_older_ones() {
    let state = WatchStateSync::new()
        .load_watch(watch(5, 10, WatchStatus::Active), 0)
        .load_watch(watch(4, 10, WatchStatus::Active), 0)
        .load_watch(watch(7, 20, WatchStatus::Active), 0)
        .load_watch(watch(6, 5, WatchStatus::Active), 0);
    let seen = counts(&state);
    assert_eq!(seen.len(), 4);
    assert_eq!(seen[0], (6, 0));
    assert_eq!(seen[3], (7, 0));
    let mut together = vec![seen[1], seen[2]];
    together.sort();
    assert_eq!(together, vec![(4, 0), (5, 0)]);
}

#[test]
fn every_live_report_is_in_the_snapshot_once() {
    let a = watch(1, 10, WatchStatus::Adding);
    let b = watch(2, 20, WatchStatus::Adding);
    let c = watch(3, 30, WatchStatus::Adding);
    let state = WatchStateSync::new()
        .on_watch_event(WatchEvent::AddWatchProgressed { report: report(&a, 1, JobStatus::Running) })
        .on_watch_event(WatchEvent::AddWatchProgressed { report: report(&b, 1, JobStatus::Running) })
        .on_watch_event(WatchEvent::AddWatchProgressed { report: report(&c, 1, JobStatus::Running) })
        .on_watch_event(WatchEvent::AddWatchProgressed { report: report(&a, 2, JobStatus::Running) })
        .on_watch_event(WatchEvent::AddWatchFinished {
            watch: b.active(),
            report: report(&b, 5, JobStatus::Finished),
        });
    let mut seen: Vec<(i64, u32)> =
        state.state().job_reports.iter().map(|r| (r.watch.id.0, r.progress.done)).collect();
    seen.sort();
    assert_eq!(seen, vec![(1, 2), (3, 1)]);
    assert_eq!(counts(&state), vec![(2, 5)]);
}

#[test]
fn first_snapshot_is_oldest_first_with_the_loaded_counts() {
    let state = WatchStateSync::new()
        .load_watch(watch(1, 30, WatchStatus::Active), 3)
        .load_watch(watch(2, 10, WatchStatus::Active), 5)
        .load_watch(watch(3, 20, WatchStatus::Active), 0);
    let first = state.initial_state();
    let seen: Vec<(i64, u32)> = first.watches.iter().map(|w| (w.id.0, w.document_count)).collect();
    assert_eq!(seen, vec![(2, 5), (3, 0), (1, 3)]);
    assert!(first.job_reports.is_empty());
    assert_eq!(first, state.state());
    let empty = WatchStateSync::new().initial_state();
    assert!(empty.watches.is_empty());
}

#[test]
fn a_new_watch_shows_up_without_documents() {
    let w = watch(1, 10, WatchStatus::Adding);
    let state = WatchStateSync::new().on_watch_event(WatchEvent::AddWatchQueued { watch: w.clone() });
    assert_eq!(
        state.state().watches,
        vec![WatchFull::from_watch(w.clone(), 0)]
    );
    assert_eq!(state.document_count(1), None);
    // documents that are added while the watch has no count are not counted
    let state = state.on_document_event(&DocumentEvent::DocumentAdded(document(1)));
    assert_eq!(counts(&state), vec![(1, 0)]);
}

#[test]
fn progress_is_kept_until_the_job_ends() {
    let w = watch(1, 10, WatchStatus::Adding);
    let state = WatchStateSync::new()
        .on_watch_event(WatchEvent::AddWatchStarted { watch: w.clone() })
        .on_watch_event(WatchEvent::AddWatchProgressed { report: report(&w, 1, JobStatus::Running) })
        .on_watch_event(WatchEvent::AddWatchProgressed { report: report(&w, 2, JobStatus::Running) });
    assert_eq!(state.state().job_reports, vec![report(&w, 2, JobStatus::Running)]);
    let state = state.on_watch_event(WatchEvent::AddWatchFinished {
        watch: w.active(),
        report: report(&w, 4, JobStatus::Finished),
    });
    let snapshot = state.state();
    assert!(snapshot.job_reports.is_empty());
    assert_eq!(snapshot.watches, vec![WatchFull::from_watch(w.active(), 4)]);
    assert_eq!(state.document_count(1), Some(4));
}

#[test]
fn sync_end_sets_the_count_to_done() {
    let w = watch(1, 10, WatchStatus::Active);
    let state = WatchStateSync::new()
        .load_watch(w.clone(), 9)
        .on_watch_event(WatchEvent::SyncWatchProgressed { report: report(&w, 1, JobStatus::Running) })
        .on_watch_event(WatchEvent::SyncWatchFinished {
            watch: w.active(),
            report: report(&w, 6, JobStatus::Finished),
        });
    assert_eq!(counts(&state), vec![(1, 6)]);
    assert!(state.state().job_reports.is_empty());
}

#[test]
fn documents_count_up_and_down() {
    let state = WatchStateSync::new().load_watch(watch(1, 10, WatchStatus::Active), 1);
    let state = state.on_document_event(&DocumentEvent::DocumentAdded(document(1)));
    assert_eq!(counts(&state), vec![(1, 2)]);
    let state = state.on_document_event(&DocumentEvent::DocumentUpdated(document(1)));
    assert_eq!(counts(&state), vec![(1, 2)]);
    let state = state.on_document_event(&DocumentEvent::DocumentDeleted(document(1)));
    let state = state.on_document_event(&DocumentEvent::DocumentDeleted(document(1)));
    assert_eq!(counts(&state), vec![(1, 0)]);
    let state = state.on_document_event(&DocumentEvent::DocumentDeleted(document(1)));
    assert_eq!(counts(&state), vec![(1, 0)]);
    let state = state.on_document_event(&DocumentEvent::DocumentAdded(document(2)));
    assert_eq!(counts(&state), vec![(1, 0)]);
    assert_eq!(state.document_count(2), None);
}

#[test]
fn a_deleted_watch_leaves_the_snapshot() {
    let a = watch(1, 10, WatchStatus::Active);
    let b = watch(2, 20, WatchStatus::Active);
    let state = WatchStateSync::new()
        .load_watch(a.clone(), 1)
        .load_watch(b.clone(), 2)
        .on_watch_event(WatchEvent::DeleteWatchQueued { watch: a.deleting() });
    assert_eq!(state.state().watches[0].status, WatchStatus::Deleting);
    let state = state
        .on_watch_event(WatchEvent::DeleteWatchStarted { watch: a.deleting() })
        .on_watch_event(WatchEvent::DeleteWatchProgressed { report: report(&a, 0, JobStatus::Running) })
        .on_watch_event(WatchEvent::DeleteWatchFinished { watch: a.clone() });
    assert_eq!(counts(&state), vec![(2, 2)]);
    assert!(state.state().job_reports.is_empty());
}
