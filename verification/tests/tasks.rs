use jomai::delete_watch_job::DeleteWatchJob;
use jomai::document_service::AddDocumentError;
use jomai::job_steps::continues_after;
use jomai::job_steps::JobStep;
use jomai::jobs::JobProgress;
use jomai::jobs::JobReport;
use jomai::jobs::JobStatus;
use jomai::jobs::JobType;
use jomai::scan_watch_job::ReporterResult;
use jomai::scan_watch_job::ScanReportEvent;
use jomai::scan_watch_job::ScanWatchJob;
use jomai::sync_watch_job::after_sync_event;
use jomai::sync_watch_job::as_scan_event;
use jomai::sync_watch_job::flatten;
use jomai::sync_watch_job::SyncReportEvent;
use jomai::sync_watch_job::SyncWatchJob;
use jomai::tasks::add_documents_event;
use jomai::tasks::is_stale;
use jomai::tasks::scan_directory_event;
use jomai::tasks::update_documents_after_delete;
use jomai::tasks::update_documents_after_modified_time;
use jomai::tasks::update_documents_after_read;
use jomai::tasks::update_documents_after_update;
use jomai::tasks::update_documents_first_step;
use jomai::tasks::worker_count;
use jomai::tasks::AddDocumentsEvent;
use jomai::tasks::GetDocumentsEvent;
use jomai::tasks::ScanDirectoryEvent;
use jomai::tasks::Stage;
use jomai::tasks::UpdateDocumentsEvent;
use jomai::tasks::UpdateDocumentsStep;
use jomai::time::Timestamp;
use jomai::watch_state_sync::WatchEvent;
use jomai::watches::Watch;
use jomai::watches::WatchId;
use jomai::watches::WatchStatus;

fn at(secs: i64, nanos: u32) -> Timestamp {
    Timestamp { secs, nanos }
}

fn watch() -> Watch {
    Watch { id: WatchId(1), path: "/w".to_string(), status: WatchStatus::Adding, created_at: at(1, 0) }
}

#[test]
fn half_the_cores_work_and_at_least_one() {
    assert_eq!(worker_count(0), 1);
    assert_eq!(worker_count(1), 1);
    assert_eq!(worker_count(2), 1);
    assert_eq!(worker_count(3), 1);
    assert_eq!(worker_count(4), 2);
    assert_eq!(worker_count(9), 4);
    assert_eq!(worker_count(usize::MAX), usize::MAX / 2);
}

#[test]
fn an_existing_document_is_no_failure() {
    assert_eq!(add_documents_event(&Ok(())), AddDocumentsEvent::DocumentAdded);
    assert_eq!(
        add_documents_event(&Err(AddDocumentError::AlreadyExists)),
        AddDocumentsEvent::AlreadyExists
    );
    assert_eq!(
        add_documents_event(&Err(AddDocumentError::NotEligible)),
        AddDocumentsEvent::AddingDocumentFailed
    );
    assert_eq!(
        add_documents_event(&Err(AddDocumentError::NoWatchFound)),
        AddDocumentsEvent::AddingDocumentFailed
    );
    assert_eq!(
        add_documents_event(&Err(AddDocumentError::Other("x".to_string()))),
        AddDocumentsEvent::AddingDocumentFailed
    );
}

#[test]
fn a_document_is_stale_when_its_file_is_newer() {
    assert!(is_stale(None, at(0, 0)));
    assert!(is_stale(Some(at(10, 0)), at(11, 0)));
    assert!(is_stale(Some(at(10, 5)), at(10, 6)));
    assert!(!is_stale(Some(at(10, 5)), at(10, 5)));
    assert!(!is_stale(Some(at(10, 5)), at(10, 4)));
    assert!(!is_stale(Some(at(10, 5)), at(9, 999_999_999)));
    assert!(at(-1, 0).is_before(&at(0, 0)));
    assert!(!at(0, 0).is_before(&at(0, 0)));
}

#[test]
fn steps_of_the_updating_stage() {
    assert_eq!(update_documents_first_step(false), UpdateDocumentsStep::DeleteDocument);
    assert_eq!(update_documents_first_step(true), UpdateDocumentsStep::ReadModifiedTime);
    assert_eq!(
        update_documents_after_modified_time(None, at(5, 0)),
        UpdateDocumentsStep::UpdateDocument
    );
    assert_eq!(
        update_documents_after_modified_time(Some(at(4, 0)), at(5, 0)),
        UpdateDocumentsStep::UpdateDocument
    );
    assert_eq!(
        update_documents_after_modified_time(Some(at(5, 0)), at(5, 0)),
        UpdateDocumentsStep::Tell(UpdateDocumentsEvent::UpToDate)
    );
    assert_eq!(update_documents_after_delete(true), UpdateDocumentsEvent::DocumentDeleted);
    assert_eq!(update_documents_after_delete(false), UpdateDocumentsEvent::DeletingDocumentFailed);
    assert_eq!(update_documents_after_update(true), UpdateDocumentsEvent::DocumentUpdated);
    assert_eq!(update_documents_after_update(false), UpdateDocumentsEvent::UpdatingDocumentFailed);
}

#[test]
fn scan_counters() {
    let mut c = ReporterResult::new();
    assert_eq!(c, ReporterResult { done: 0, failed: 0, total: 0 });
    let events = [
        ScanReportEvent::Scanner(ScanDirectoryEvent::FileDetected),
        ScanReportEvent::Scanner(ScanDirectoryEvent::FileDetected),
        ScanReportEvent::Registrar(AddDocumentsEvent::DocumentAdded),
        ScanReportEvent::Scanner(ScanDirectoryEvent::FileDetected),
        ScanReportEvent::Registrar(AddDocumentsEvent::AlreadyExists),
        ScanReportEvent::Registrar(AddDocumentsEvent::AddingDocumentFailed),
    ];
    for e in events {
        assert!(c.has_room());
        c = c.after_scan_event(e);
    }
    assert_eq!(c, ReporterResult { done: 1, failed: 1, total: 3 });
    assert!(!ReporterResult { done: u32::MAX, failed: 0, total: 0 }.has_room());
}

#[test]
fn sync_counters() {
    let mut c = ReporterResult::new();
    let events = [
        SyncReportEvent::GetDocuments(GetDocumentsEvent::DocumentFound),
        SyncReportEvent::GetDocuments(GetDocumentsEvent::DocumentFound),
        SyncReportEvent::GetDocuments(GetDocumentsEvent::DocumentFound),
        SyncReportEvent::GetDocuments(GetDocumentsEvent::DocumentFound),
        SyncReportEvent::GetDocuments(GetDocumentsEvent::DocumentFound),
        SyncReportEvent::UpdateDocuments(UpdateDocumentsEvent::UpToDate),
        SyncReportEvent::UpdateDocuments(UpdateDocumentsEvent::DocumentDeleted),
        SyncReportEvent::UpdateDocuments(UpdateDocumentsEvent::DeletingDocumentFailed),
        SyncReportEvent::UpdateDocuments(UpdateDocumentsEvent::DocumentUpdated),
        SyncReportEvent::UpdateDocuments(UpdateDocumentsEvent::UpdatingDocumentFailed),
        SyncReportEvent::ScanDirectory(ScanDirectoryEvent::FileDetected),
        SyncReportEvent::ScanDirectory(ScanDirectoryEvent::FileDetected),
        SyncReportEvent::AddDocuments(AddDocumentsEvent::DocumentAdded),
        SyncReportEvent::AddDocuments(AddDocumentsEvent::AlreadyExists),
        SyncReportEvent::AddDocuments(AddDocumentsEvent::AddingDocumentFailed),
    ];
    for e in events {
        c = after_sync_event(c, e);
    }
    assert_eq!(c, ReporterResult { done: 3, failed: 3, total: 6 });
}

#[test]
fn steps_of_a_scan() {
    let job = ScanWatchJob::new(watch());
    assert_eq!(
        job.start(8),
        vec![
            JobStep::EmitStarted,
            JobStep::Spawn { stage: Stage::ScanDirectory, tasks: 1 },
            JobStep::Spawn { stage: Stage::AddDocuments, tasks: 4 },
            JobStep::Spawn { stage: Stage::Report, tasks: 1 },
            JobStep::JoinAll,
            JobStep::CommitIndex,
            JobStep::SetWatchActive,
        ]
    );
    assert_eq!(job.start(1)[2], JobStep::Spawn { stage: Stage::AddDocuments, tasks: 1 });
}

#[test]
fn steps_of_a_sync() {
    let job = SyncWatchJob::new(watch());
    assert_eq!(
        job.start(6),
        vec![
            JobStep::Spawn { stage: Stage::Report, tasks: 1 },
            JobStep::Spawn { stage: Stage::GetDocuments, tasks: 1 },
            JobStep::JoinNext,
            JobStep::Spawn { stage: Stage::UpdateDocuments, tasks: 3 },
            JobStep::Spawn { stage: Stage::ScanDirectory, tasks: 1 },
            JobStep::Spawn { stage: Stage::AddDocuments, tasks: 3 },
            JobStep::JoinAll,
            JobStep::CommitIndex,
            JobStep::SetWatchActive,
        ]
    );
}

#[test]
fn steps_of_a_deletion() {
    let job = DeleteWatchJob::new(watch());
    assert_eq!(
        job.start(),
        vec![
            JobStep::EmitStarted,
            JobStep::BeginTransaction,
            JobStep::DeleteDocuments,
            JobStep::CommitIndex,
            JobStep::DeleteWatchRow,
            JobStep::CommitTransaction,
            JobStep::EmitFinished,
        ]
    );
    assert_eq!(job.started(), WatchEvent::DeleteWatchStarted { watch: watch() });
    assert_eq!(job.finished(), WatchEvent::DeleteWatchFinished { watch: watch() });
}

#[test]
fn only_waiting_for_all_tasks_forgives_failure() {
    assert!(continues_after(JobStep::JoinAll, false));
    assert!(continues_after(JobStep::JoinAll, true));
    assert!(continues_after(JobStep::CommitIndex, true));
    assert!(!continues_after(JobStep::CommitIndex, false));
    assert!(!continues_after(JobStep::JoinNext, false));
    assert!(!continues_after(JobStep::EmitStarted, false));
    assert!(!continues_after(JobStep::SetWatchActive, false));
    assert!(!continues_after(JobStep::Spawn { stage: Stage::Report, tasks: 1 }, false));
}

#[test]
fn reports_of_a_scan() {
    let job = ScanWatchJob::new(watch());
    let counters = ReporterResult { done: 2, failed: 1, total: 5 };
    assert_eq!(job.started(), WatchEvent::AddWatchStarted { watch: watch() });
    assert_eq!(
        job.progressed(counters),
        WatchEvent::AddWatchProgressed {
            report: JobReport {
                watch: watch(),
                progress: JobProgress { done: 2, failed: 1, total: 5 },
                job_type: JobType::ScanWatchPath,
                status: JobStatus::Running,
            }
        }
    );
    assert_eq!(
        job.finished(counters),
        WatchEvent::AddWatchFinished {
            watch: watch().active(),
            report: JobReport {
                watch: watch(),
                progress: JobProgress { done: 2, failed: 1, total: 5 },
                job_type: JobType::ScanWatchPath,
                status: JobStatus::Finished,
            }
        }
    );
}

#[test]
fn reports_of_a_sync() {
    let job = SyncWatchJob::new(watch());
    let counters = ReporterResult { done: 2, failed: 1, total: 5 };
    assert_eq!(
        job.progressed(counters),
        WatchEvent::SyncWatchProgressed {
            report: JobReport {
                watch: watch(),
                progress: JobProgress::new(2, 1, 5),
                job_type: JobType::SyncWatch,
                status: JobStatus::Running,
            }
        }
    );
    assert_eq!(
        job.finished(counters),
        WatchEvent::SyncWatchFinished {
            watch: watch().active(),
            report: JobReport {
                watch: watch(),
                progress: JobProgress::new(2, 1, 5),
                job_type: JobType::SyncWatch,
                status: JobStatus::Finished,
            }
        }
    );
}

#[test]
fn a_waited_task_gives_its_own_result() {
    assert_eq!(flatten::<u8>(Ok(Ok(1))), Ok(1));
    assert_eq!(flatten::<u8>(Ok(Err("task".to_string()))), Err("task".to_string()));
    assert_eq!(flatten::<u8>(Err("join".to_string())), Err("join".to_string()));
}

#[test]
fn a_scan_reports_after_every_event() {
    let events = vec![
        ScanReportEvent::Scanner(ScanDirectoryEvent::FileDetected),
        ScanReportEvent::Registrar(AddDocumentsEvent::DocumentAdded),
        ScanReportEvent::Registrar(AddDocumentsEvent::AddingDocumentFailed),
    ];
    let job = ScanWatchJob::new(watch());
    assert_eq!(
        jomai::scan_watch_job::report(&watch(), &events),
        vec![
            job.progressed(ReporterResult { done: 0, failed: 0, total: 1 }),
            job.progressed(ReporterResult { done: 1, failed: 0, total: 1 }),
            job.progressed(ReporterResult { done: 1, failed: 1, total: 1 }),
            job.finished(ReporterResult { done: 1, failed: 1, total: 1 }),
        ]
    );
    assert_eq!(
        jomai::scan_watch_job::report(&watch(), &Vec::new()),
        vec![job.finished(ReporterResult { done: 0, failed: 0, total: 0 })]
    );
}

#[test]
fn a_sync_reports_after_every_event() {
    let events = vec![
        SyncReportEvent::GetDocuments(GetDocumentsEvent::DocumentFound),
        SyncReportEvent::UpdateDocuments(UpdateDocumentsEvent::DocumentDeleted),
        SyncReportEvent::ScanDirectory(ScanDirectoryEvent::FileDetected),
        SyncReportEvent::AddDocuments(AddDocumentsEvent::DocumentAdded),
    ];
    let job = SyncWatchJob::new(watch());
    assert_eq!(
        jomai::sync_watch_job::report(&watch(), &events),
        vec![
            job.progressed(ReporterResult { done: 0, failed: 0, total: 1 }),
            job.progressed(ReporterResult { done: 0, failed: 0, total: 1 }),
            job.progressed(ReporterResult { done: 0, failed: 0, total: 1 }),
            job.progressed(ReporterResult { done: 1, failed: 0, total: 2 }),
            job.finished(ReporterResult { done: 1, failed: 0, total: 2 }),
        ]
    );
}

#[test]
fn a_scan_hears_of_files_and_adds_only() {
    assert_eq!(
        as_scan_event(SyncReportEvent::AddDocuments(AddDocumentsEvent::AlreadyExists)),
        Some(ScanReportEvent::Registrar(AddDocumentsEvent::AlreadyExists))
    );
    assert_eq!(
        as_scan_event(SyncReportEvent::ScanDirectory(ScanDirectoryEvent::FileDetected)),
        Some(ScanReportEvent::Scanner(ScanDirectoryEvent::FileDetected))
    );
    assert_eq!(as_scan_event(SyncReportEvent::GetDocuments(GetDocumentsEvent::DocumentFound)), None);
    assert_eq!(
        as_scan_event(SyncReportEvent::UpdateDocuments(UpdateDocumentsEvent::UpToDate)),
        None
    );
}

#[test]
fn a_time_that_cannot_be_read_fails_the_document() {
    assert_eq!(
        update_documents_after_read(Some(at(5, 0)), Err(String::from("no such file"))),
        UpdateDocumentsStep::Tell(UpdateDocumentsEvent::UpdatingDocumentFailed)
    );
    assert_eq!(
        update_documents_after_read(None, Err(String::new())),
        UpdateDocumentsStep::Tell(UpdateDocumentsEvent::UpdatingDocumentFailed)
    );
    assert_eq!(
        update_documents_after_read(None, Ok(at(5, 0))),
        UpdateDocumentsStep::UpdateDocument
    );
    assert_eq!(
        update_documents_after_read(Some(at(4, 999_999_999)), Ok(at(5, 0))),
        UpdateDocumentsStep::UpdateDocument
    );
    assert_eq!(
        update_documents_after_read(Some(at(5, 0)), Ok(at(5, 0))),
        UpdateDocumentsStep::Tell(UpdateDocumentsEvent::UpToDate)
    );
    assert_eq!(
        update_documents_after_read(Some(at(6, 0)), Ok(at(5, 0))),
        UpdateDocumentsStep::Tell(UpdateDocumentsEvent::UpToDate)
    );
}

#[test]
fn a_failed_time_counts_as_failed_and_the_sync_goes_on() {
    let mut c = ReporterResult::new();
    c = after_sync_event(c, SyncReportEvent::GetDocuments(GetDocumentsEvent::DocumentFound));
    c = after_sync_event(c, SyncReportEvent::GetDocuments(GetDocumentsEvent::DocumentFound));
    let first = match update_documents_after_read(Some(at(1, 0)), Err(String::from("gone"))) {
        UpdateDocumentsStep::Tell(e) => e,
        _ => panic!("a step where an event was due"),
    };
    c = after_sync_event(c, SyncReportEvent::UpdateDocuments(first));
    let second = match update_documents_after_read(Some(at(1, 0)), Ok(at(0, 0))) {
        UpdateDocumentsStep::Tell(e) => e,
        _ => panic!("a step where an event was due"),
    };
    c = after_sync_event(c, SyncReportEvent::UpdateDocuments(second));
    assert_eq!(c, ReporterResult { done: 1, failed: 1, total: 2 });
}

#[test]
fn a_walk_reports_readable_eligible_entries_only() {
    assert_eq!(scan_directory_event(true, true), Some(ScanDirectoryEvent::FileDetected));
    assert_eq!(scan_directory_event(true, false), None);
    assert_eq!(scan_directory_event(false, true), None);
    assert_eq!(scan_directory_event(false, false), None);
}

#[test]
fn a_deleted_document_is_not_counted_as_done() {
    let before = ReporterResult { done: 2, failed: 1, total: 5 };
    assert_eq!(
        after_sync_event(
            before,
            SyncReportEvent::UpdateDocuments(UpdateDocumentsEvent::DocumentDeleted)
        ),
        before
    );
}

#[test]
fn the_last_report_does_not_depend_on_the_order_of_the_events() {
    let in_stages = vec![
        SyncReportEvent::GetDocuments(GetDocumentsEvent::DocumentFound),
        SyncReportEvent::GetDocuments(GetDocumentsEvent::DocumentFound),
        SyncReportEvent::GetDocuments(GetDocumentsEvent::DocumentFound),
        SyncReportEvent::UpdateDocuments(UpdateDocumentsEvent::UpToDate),
        SyncReportEvent::UpdateDocuments(UpdateDocumentsEvent::DocumentDeleted),
        SyncReportEvent::UpdateDocuments(UpdateDocumentsEvent::UpdatingDocumentFailed),
        SyncReportEvent::ScanDirectory(ScanDirectoryEvent::FileDetected),
        SyncReportEvent::ScanDirectory(ScanDirectoryEvent::FileDetected),
        SyncReportEvent::AddDocuments(AddDocumentsEvent::AlreadyExists),
        SyncReportEvent::AddDocuments(AddDocumentsEvent::DocumentAdded),
    ];
    let mut backwards = in_stages.clone();
    backwards.reverse();
    let mut mixed = Vec::new();
    for i in 0..5 {
        mixed.push(in_stages[i + 5]);
        mixed.push(in_stages[i]);
    }
    let job = SyncWatchJob::new(watch());
    let end = job.finished(ReporterResult { done: 2, failed: 1, total: 4 });
    for events in [in_stages, backwards, mixed] {
        let told = jomai::sync_watch_job::report(&watch(), &events);
        assert_eq!(told.len(), events.len() + 1);
        assert_eq!(told.last(), Some(&end));
    }
}
