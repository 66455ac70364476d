//! The job that brings both stores in line with the disk.
//!
//! The stored documents of the watch are read first, all of them, so that
//! the long read is over before anything is written. Then three stages
//! run side by side: the stored documents are deleted, refreshed or kept;
//! the directory is walked; and what the walk finds is added. When all
//! have ended the index is committed and the watch becomes active.

use crate::job_steps::JobStep;
use crate::jobs::JobStatus;
use crate::jobs::JobType;
use crate::scan_watch_job::counts;
use crate::scan_watch_job::report_of;
use crate::scan_watch_job::ReporterResult;
use crate::scan_watch_job::ScanReportEvent;
use crate::tasks::worker_count;
use crate::tasks::workers;
use crate::tasks::AddDocumentsEvent;
use crate::tasks::GetDocumentsEvent;
use crate::tasks::ScanDirectoryEvent;
use crate::tasks::Stage;
use crate::tasks::UpdateDocumentsEvent;
use crate::watch_state_sync::WatchEvent;
use crate::watches::Watch;
use crate::watches::WatchStatus;
use vstd::multiset::Multiset;
use vstd::prelude::*;

verus! {

/// The number of found files that wait to be added before the walk of
/// the directory is held back.
pub const PATH_CHANNEL_CAPACITY: usize = 10_000;

/// The steps of a synchronisation on a machine with the given
/// parallelism.
pub open spec fn sync_steps(parallelism: usize) -> Seq<JobStep> {
    seq![
        JobStep::Spawn { stage: Stage::Report, tasks: 1 },
        JobStep::Spawn { stage: Stage::GetDocuments, tasks: 1 },
        JobStep::JoinNext,
        JobStep::Spawn { stage: Stage::UpdateDocuments, tasks: workers(parallelism) },
        JobStep::Spawn { stage: Stage::ScanDirectory, tasks: 1 },
        JobStep::Spawn { stage: Stage::AddDocuments, tasks: workers(parallelism) },
        JobStep::JoinAll,
        JobStep::CommitIndex,
        JobStep::SetWatchActive,
    ]
}

/// What reaches the reporter of a synchronisation.
#[derive(Clone, Copy, Debug, PartialEq, Eq, Structural)]
pub enum SyncReportEvent {
    GetDocuments(GetDocumentsEvent),
    UpdateDocuments(UpdateDocumentsEvent),
    AddDocuments(AddDocumentsEvent),
    ScanDirectory(ScanDirectoryEvent),
}

/// The counters of a synchronisation after `event`. A stored document
/// counts towards the total when it is found and is done when it was
/// kept or refreshed; an added file counts towards the total and is
/// done; a failed deletion, refresh or add has failed. A deleted
/// document, a detected file and a file that exists already change
/// nothing: so the documents that are done are the documents that the
/// watch has in the index.
pub open spec fn sync_counted(c: ReporterResult, event: SyncReportEvent) -> (int, int, int) {
    match event {
        SyncReportEvent::GetDocuments(GetDocumentsEvent::DocumentFound) => (
            c.done as int,
            c.failed as int,
            c.total + 1,
        ),
        SyncReportEvent::UpdateDocuments(UpdateDocumentsEvent::UpToDate) => (
            c.done + 1,
            c.failed as int,
            c.total as int,
        ),
        SyncReportEvent::UpdateDocuments(UpdateDocumentsEvent::DocumentDeleted) => (
            c.done as int,
            c.failed as int,
            c.total as int,
        ),
        SyncReportEvent::UpdateDocuments(UpdateDocumentsEvent::DeletingDocumentFailed) => (
            c.done as int,
            c.failed + 1,
            c.total as int,
        ),
        SyncReportEvent::UpdateDocuments(UpdateDocumentsEvent::DocumentUpdated) => (
            c.done + 1,
            c.failed as int,
            c.total as int,
        ),
        SyncReportEvent::UpdateDocuments(UpdateDocumentsEvent::UpdatingDocumentFailed) => (
            c.done as int,
            c.failed + 1,
            c.total as int,
        ),
        SyncReportEvent::AddDocuments(AddDocumentsEvent::DocumentAdded) => (
            c.done + 1,
            c.failed as int,
            c.total + 1,
        ),
        SyncReportEvent::AddDocuments(AddDocumentsEvent::AlreadyExists) => (
            c.done as int,
            c.failed as int,
            c.total as int,
        ),
        SyncReportEvent::AddDocuments(AddDocumentsEvent::AddingDocumentFailed) => (
            c.done as int,
            c.failed + 1,
            c.total as int,
        ),
        SyncReportEvent::ScanDirectory(ScanDirectoryEvent::FileDetected) => (
            c.done as int,
            c.failed as int,
            c.total as int,
        ),
    }
}

/// The counters of a synchronisation after `event`. A counter that stands
/// at the largest number it can hold cannot count one more.
pub fn after_sync_event(c: ReporterResult, event: SyncReportEvent) -> (r: ReporterResult)
    requires
        sync_counted(c, event).0 <= u32::MAX,
        sync_counted(c, event).1 <= u32::MAX,
        sync_counted(c, event).2 <= u32::MAX,
    ensures
        counts(r) == sync_counted(c, event),
{
    match event {
        SyncReportEvent::GetDocuments(GetDocumentsEvent::DocumentFound) => ReporterResult {
            total: c.total + 1,
            ..c
        },
        SyncReportEvent::UpdateDocuments(UpdateDocumentsEvent::UpToDate) => ReporterResult {
            done: c.done + 1,
            ..c
        },
        SyncReportEvent::UpdateDocuments(UpdateDocumentsEvent::DocumentDeleted) => c,
        SyncReportEvent::UpdateDocuments(
            UpdateDocumentsEvent::DeletingDocumentFailed,
        ) => ReporterResult { failed: c.failed + 1, ..c },
        SyncReportEvent::UpdateDocuments(UpdateDocumentsEvent::DocumentUpdated) => ReporterResult {
            done: c.done + 1,
            ..c
        },
        SyncReportEvent::UpdateDocuments(
            UpdateDocumentsEvent::UpdatingDocumentFailed,
        ) => ReporterResult { failed: c.failed + 1, ..c },
        SyncReportEvent::AddDocuments(AddDocumentsEvent::DocumentAdded) => ReporterResult {
            done: c.done + 1,
            total: c.total + 1,
            ..c
        },
        SyncReportEvent::AddDocuments(AddDocumentsEvent::AlreadyExists) => c,
        SyncReportEvent::AddDocuments(AddDocumentsEvent::AddingDocumentFailed) => ReporterResult {
            failed: c.failed + 1,
            ..c
        },
        SyncReportEvent::ScanDirectory(ScanDirectoryEvent::FileDetected) => c,
    }
}

/// The event as the reporter of a scan takes it: a scan hears only of
/// detected files and of adds.
pub fn as_scan_event(event: SyncReportEvent) -> (r: Option<ScanReportEvent>)
    ensures
        r == match event {
            SyncReportEvent::AddDocuments(e) => Some(ScanReportEvent::Registrar(e)),
            SyncReportEvent::ScanDirectory(e) => Some(ScanReportEvent::Scanner(e)),
            _ => None,
        },
{
    match event {
        SyncReportEvent::AddDocuments(e) => Some(ScanReportEvent::Registrar(e)),
        SyncReportEvent::ScanDirectory(e) => Some(ScanReportEvent::Scanner(e)),
        _ => None,
    }
}

/// The result of a task that was waited for: the error of the wait where
/// the task did not end by itself, else what the task returned.
pub fn flatten<T>(result: Result<Result<T, String>, String>) -> (r: Result<T, String>)
    ensures
        r == match result {
            Ok(inner) => inner,
            Err(e) => Err::<T, String>(e),
        },
{
    match result {
        Ok(Ok(t)) => Ok(t),
        Ok(Err(e)) => Err(e),
        Err(e) => Err(e),
    }
}

/// A synchronisation of one watch.
#[derive(Debug, PartialEq, Eq)]
pub struct SyncWatchJob {
    pub watch: Watch,
}

impl SyncWatchJob {
    pub fn new(watch: Watch) -> (r: Self)
        ensures
            r.watch == watch,
    {
        SyncWatchJob { watch }
    }

    /// The steps of the synchronisation, in order.
    pub fn start(&self, parallelism: usize) -> (r: Vec<JobStep>)
        ensures
            r@ == sync_steps(parallelism),
    {
        let mut steps: Vec<JobStep> = Vec::new();
        steps.push(JobStep::Spawn { stage: Stage::Report, tasks: 1 });
        steps.push(JobStep::Spawn { stage: Stage::GetDocuments, tasks: 1 });
        steps.push(JobStep::JoinNext);
        steps.push(
            JobStep::Spawn { stage: Stage::UpdateDocuments, tasks: worker_count(parallelism) },
        );
        steps.push(JobStep::Spawn { stage: Stage::ScanDirectory, tasks: 1 });
        steps.push(JobStep::Spawn { stage: Stage::AddDocuments, tasks: worker_count(parallelism) });
        steps.push(JobStep::JoinAll);
        steps.push(JobStep::CommitIndex);
        steps.push(JobStep::SetWatchActive);
        steps
    }

    /// What the listeners are told after each event that reached the
    /// reporter.
    pub fn progressed(&self, counters: ReporterResult) -> (r: WatchEvent)
        ensures
            r == (WatchEvent::SyncWatchProgressed {
                report: report_of(self.watch, counters, JobType::SyncWatch, JobStatus::Running),
            }),
    {
        WatchEvent::SyncWatchProgressed {
            report: counters.report(&self.watch, JobType::SyncWatch, JobStatus::Running),
        }
    }

    /// What the listeners are told when no more events can reach the
    /// reporter.
    pub fn finished(&self, counters: ReporterResult) -> (r: WatchEvent)
        ensures
            r == (WatchEvent::SyncWatchFinished {
                watch: self.watch.with_status(WatchStatus::Active),
                report: report_of(self.watch, counters, JobType::SyncWatch, JobStatus::Finished),
            }),
    {
        WatchEvent::SyncWatchFinished {
            watch: self.watch.active(),
            report: counters.report(&self.watch, JobType::SyncWatch, JobStatus::Finished),
        }
    }
}

/// The counters of a synchronisation after the events of `events`, one
/// after another.
pub open spec fn sync_tally(events: Seq<SyncReportEvent>) -> (int, int, int)
    decreases events.len(),
{
    if events.len() == 0 {
        (0, 0, 0)
    } else {
        let before = sync_tally(events.drop_last());
        let more = sync_counted(ReporterResult { done: 0, failed: 0, total: 0 }, events.last());
        (before.0 + more.0, before.1 + more.1, before.2 + more.2)
    }
}

/// No counter counts more than there were events.
pub proof fn lemma_sync_tally_bounded(events: Seq<SyncReportEvent>)
    ensures
        0 <= sync_tally(events).0 <= events.len(),
        0 <= sync_tally(events).1 <= events.len(),
        0 <= sync_tally(events).2 <= events.len(),
    decreases events.len(),
{
    if events.len() > 0 {
        lemma_sync_tally_bounded(events.drop_last());
    }
}

/// The counters only grow: after the first `n` events no counter stands
/// higher than after all of them.
pub proof fn lemma_sync_tally_grows(events: Seq<SyncReportEvent>, n: int)
    requires
        0 <= n <= events.len(),
    ensures
        sync_tally(events.take(n)).0 <= sync_tally(events).0,
        sync_tally(events.take(n)).1 <= sync_tally(events).1,
        sync_tally(events.take(n)).2 <= sync_tally(events).2,
    decreases events.len(),
{
    if n == events.len() {
        assert(events.take(n) =~= events);
    } else {
        assert(events.drop_last().take(n) =~= events.take(n));
        lemma_sync_tally_grows(events.drop_last(), n);
    }
}

/// How often `event` stands among `events`.
pub open spec fn times(events: Seq<SyncReportEvent>, event: SyncReportEvent) -> int {
    events.to_multiset().count(event) as int
}

/// What the counters of a synchronisation stand at after `events`: the
/// documents done are those kept, refreshed and added; the failed ones
/// are the failed deletions, refreshes and adds; the total is the stored
/// documents that were found and the files that were added. Deleted
/// documents, detected files and files that exist already are not
/// counted.
pub proof fn lemma_sync_tally_counts(events: Seq<SyncReportEvent>)
    ensures
        sync_tally(events).0 == times(
            events,
            SyncReportEvent::UpdateDocuments(UpdateDocumentsEvent::UpToDate),
        ) + times(events, SyncReportEvent::UpdateDocuments(UpdateDocumentsEvent::DocumentUpdated))
            + times(events, SyncReportEvent::AddDocuments(AddDocumentsEvent::DocumentAdded)),
        sync_tally(events).1 == times(
            events,
            SyncReportEvent::UpdateDocuments(UpdateDocumentsEvent::DeletingDocumentFailed),
        ) + times(
            events,
            SyncReportEvent::UpdateDocuments(UpdateDocumentsEvent::UpdatingDocumentFailed),
        ) + times(events, SyncReportEvent::AddDocuments(AddDocumentsEvent::AddingDocumentFailed)),
        sync_tally(events).2 == times(
            events,
            SyncReportEvent::GetDocuments(GetDocumentsEvent::DocumentFound),
        ) + times(events, SyncReportEvent::AddDocuments(AddDocumentsEvent::DocumentAdded)),
    decreases events.len(),
{
    broadcast use vstd::multiset::group_multiset_axioms;

    if events.len() == 0 {
        assert(events.to_multiset() =~= Multiset::<SyncReportEvent>::empty()) by {
            events.to_multiset_ensures();
            assert(events.to_multiset().len() == 0);
        }
    } else {
        let init = events.drop_last();
        lemma_sync_tally_counts(init);
        assert(events =~= init.push(events.last()));
        init.to_multiset_ensures();
        assert(events.to_multiset() =~= init.to_multiset().insert(events.last()));
    }
}

/// The counters do not depend on the order in which the events of the
/// stages reach the reporter: two sequences that hold the same events,
/// each as often, leave the same counters.
pub proof fn lemma_sync_tally_of_any_order(a: Seq<SyncReportEvent>, b: Seq<SyncReportEvent>)
    requires
        a.to_multiset() == b.to_multiset(),
    ensures
        sync_tally(a) == sync_tally(b),
{
    lemma_sync_tally_counts(a);
    lemma_sync_tally_counts(b);
}

/// What the reporter of a synchronisation of `watch` tells for the events
/// of `events`, in whatever order the stages sent them: the progress
/// after each of them, and then the end, with the watch active and the
/// counters as they then stand. The events are such that no counter
/// passes the largest number it can hold.
pub fn report(watch: &Watch, events: &Vec<SyncReportEvent>) -> (r: Vec<WatchEvent>)
    requires
        sync_tally(events@).0 <= u32::MAX,
        sync_tally(events@).1 <= u32::MAX,
        sync_tally(events@).2 <= u32::MAX,
    ensures
        r.len() == events.len() + 1,
        forall|i: int|
            0 <= i < events.len() ==> (#[trigger] r@[i] matches WatchEvent::SyncWatchProgressed {
                report,
            } && report.watch == *watch && report.job_type == JobType::SyncWatch && report.status
                == JobStatus::Running && (
            report.progress.done as int,
            report.progress.failed as int,
            report.progress.total as int,
        ) == sync_tally(events@.take(i + 1))),
        r@[events.len() as int] matches WatchEvent::SyncWatchFinished { watch: w, report } && w
            == watch.with_status(WatchStatus::Active) && report.watch == *watch && report.job_type
            == JobType::SyncWatch && report.status == JobStatus::Finished && (
        report.progress.done as int,
        report.progress.failed as int,
        report.progress.total as int,
    ) == sync_tally(events@),
{
    let job = SyncWatchJob { watch: watch.clone() };
    let mut out: Vec<WatchEvent> = Vec::new();
    let mut counters = ReporterResult::new();
    let mut i: usize = 0;
    while i < events.len()
        invariant
            i <= events.len(),
            sync_tally(events@).0 <= u32::MAX,
            sync_tally(events@).1 <= u32::MAX,
            sync_tally(events@).2 <= u32::MAX,
            job.watch == *watch,
            out.len() == i,
            counts(counters) == sync_tally(events@.take(i as int)),
            forall|j: int|
                0 <= j < i ==> (#[trigger] out@[j] matches WatchEvent::SyncWatchProgressed {
                    report,
                } && report.watch == *watch && report.job_type == JobType::SyncWatch
                    && report.status == JobStatus::Running && (
                report.progress.done as int,
                report.progress.failed as int,
                report.progress.total as int,
            ) == sync_tally(events@.take(j + 1))),
        decreases events.len() - i,
    {
        proof {
            let next = events@.take(i + 1);
            assert(next.drop_last() =~= events@.take(i as int));
            lemma_sync_tally_grows(events@, i + 1);
        }
        counters = after_sync_event(counters, events[i]);
        out.push(job.progressed(counters));
        i = i + 1;
    }
    assert(events@.take(events.len() as int) =~= events@);
    out.push(job.finished(counters));
    out
}

} // verus!
