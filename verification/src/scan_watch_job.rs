//! The job that indexes a freshly added watch: one task walks the
//! directory, several add what it finds, and one reports. When all have
//! ended the index is committed and the watch becomes active.

use crate::job_steps::JobStep;
use crate::jobs::JobProgress;
use crate::jobs::JobReport;
use crate::jobs::JobStatus;
use crate::jobs::JobType;
use crate::tasks::worker_count;
use crate::tasks::workers;
use crate::tasks::AddDocumentsEvent;
use crate::tasks::ScanDirectoryEvent;
use crate::tasks::Stage;
use crate::watch_state_sync::WatchEvent;
use crate::watches::Watch;
use crate::watches::WatchStatus;
use vstd::prelude::*;

verus! {

/// Why a file was not added during a scan.
#[derive(Debug, PartialEq, Eq)]
pub enum ScanWatchJobError {
    ShouldExclude,
    NotEligible,
    AlreadyExists,
    Other(String),
}

/// The steps of a scan on a machine with the given parallelism.
pub open spec fn scan_steps(parallelism: usize) -> Seq<JobStep> {
    seq![
        JobStep::EmitStarted,
        JobStep::Spawn { stage: Stage::ScanDirectory, tasks: 1 },
        JobStep::Spawn { stage: Stage::AddDocuments, tasks: workers(parallelism) },
        JobStep::Spawn { stage: Stage::Report, tasks: 1 },
        JobStep::JoinAll,
        JobStep::CommitIndex,
        JobStep::SetWatchActive,
    ]
}

/// The counters of a reporter.
#[derive(Clone, Copy, Debug, PartialEq, Eq, Structural)]
pub struct ReporterResult {
    pub done: u32,
    pub failed: u32,
    pub total: u32,
}

/// What reaches the reporter of a scan.
#[derive(Clone, Copy, Debug, PartialEq, Eq, Structural)]
pub enum ScanReportEvent {
    Registrar(AddDocumentsEvent),
    Scanner(ScanDirectoryEvent),
}

/// The counters of a scan after `event`: a detected file counts towards
/// the total, an added one is done, a failed one has failed, and one
/// that exists already changes nothing.
pub open spec fn scan_counted(c: ReporterResult, event: ScanReportEvent) -> (int, int, int) {
    match event {
        ScanReportEvent::Registrar(AddDocumentsEvent::DocumentAdded) => (
            c.done + 1,
            c.failed as int,
            c.total as int,
        ),
        ScanReportEvent::Registrar(AddDocumentsEvent::AlreadyExists) => (
            c.done as int,
            c.failed as int,
            c.total as int,
        ),
        ScanReportEvent::Registrar(AddDocumentsEvent::AddingDocumentFailed) => (
            c.done as int,
            c.failed + 1,
            c.total as int,
        ),
        ScanReportEvent::Scanner(ScanDirectoryEvent::FileDetected) => (
            c.done as int,
            c.failed as int,
            c.total + 1,
        ),
    }
}

/// The counters as numbers.
pub open spec fn counts(c: ReporterResult) -> (int, int, int) {
    (c.done as int, c.failed as int, c.total as int)
}

/// The report of a job of type `job_type` on `watch` with the counters
/// `c` and the status `status`.
pub open spec fn report_of(watch: Watch, c: ReporterResult, job_type: JobType, status: JobStatus) -> JobReport {
    JobReport {
        watch,
        progress: JobProgress { done: c.done, failed: c.failed, total: c.total },
        job_type,
        status,
    }
}

impl ReporterResult {
    /// Counters that have counted nothing.
    pub fn new() -> (r: Self)
        ensures
            r == (ReporterResult { done: 0, failed: 0, total: 0 }),
    {
        ReporterResult { done: 0, failed: 0, total: 0 }
    }

    /// The counters of a scan after `event`. A counter that stands at the
    /// largest number it can hold cannot count one more.
    pub fn after_scan_event(self, event: ScanReportEvent) -> (r: Self)
        requires
            scan_counted(self, event).0 <= u32::MAX,
            scan_counted(self, event).1 <= u32::MAX,
            scan_counted(self, event).2 <= u32::MAX,
        ensures
            counts(r) == scan_counted(self, event),
    {
        match event {
            ScanReportEvent::Registrar(AddDocumentsEvent::DocumentAdded) => ReporterResult {
                done: self.done + 1,
                ..self
            },
            ScanReportEvent::Registrar(AddDocumentsEvent::AlreadyExists) => self,
            ScanReportEvent::Registrar(AddDocumentsEvent::AddingDocumentFailed) => ReporterResult {
                failed: self.failed + 1,
                ..self
            },
            ScanReportEvent::Scanner(ScanDirectoryEvent::FileDetected) => ReporterResult {
                total: self.total + 1,
                ..self
            },
        }
    }

    /// Whether each counter can count one more.
    pub fn has_room(&self) -> (r: bool)
        ensures
            r == (self.done < u32::MAX && self.failed < u32::MAX && self.total < u32::MAX),
    {
        self.done < u32::MAX && self.failed < u32::MAX && self.total < u32::MAX
    }

    /// The report of a job of type `job_type` on `watch` with these
    /// counters.
    pub fn report(&self, watch: &Watch, job_type: JobType, status: JobStatus) -> (r: JobReport)
        ensures
            r == report_of(*watch, *self, job_type, status),
    {
        JobReport {
            watch: watch.clone(),
            progress: JobProgress::new(self.done, self.failed, self.total),
            job_type,
            status,
        }
    }
}

/// A scan of one watch.
#[derive(Debug, PartialEq, Eq)]
pub struct ScanWatchJob {
    pub watch: Watch,
}

impl ScanWatchJob {
    pub fn new(watch: Watch) -> (r: Self)
        ensures
            r.watch == watch,
    {
        ScanWatchJob { watch }
    }

    /// The steps of the scan, in order.
    pub fn start(&self, parallelism: usize) -> (r: Vec<JobStep>)
        ensures
            r@ == scan_steps(parallelism),
    {
        let mut steps: Vec<JobStep> = Vec::new();
        steps.push(JobStep::EmitStarted);
        steps.push(JobStep::Spawn { stage: Stage::ScanDirectory, tasks: 1 });
        steps.push(JobStep::Spawn { stage: Stage::AddDocuments, tasks: worker_count(parallelism) });
        steps.push(JobStep::Spawn { stage: Stage::Report, tasks: 1 });
        steps.push(JobStep::JoinAll);
        steps.push(JobStep::CommitIndex);
        steps.push(JobStep::SetWatchActive);
        steps
    }

    /// What the listeners are told when the scan starts.
    pub fn started(&self) -> (r: WatchEvent)
        ensures
            r == (WatchEvent::AddWatchStarted { watch: self.watch }),
    {
        WatchEvent::AddWatchStarted { watch: self.watch.clone() }
    }

    /// What the listeners are told after each event that reached the
    /// reporter: the counters so far, of a running job.
    pub fn progressed(&self, counters: ReporterResult) -> (r: WatchEvent)
        ensures
            r == (WatchEvent::AddWatchProgressed {
                report: report_of(
                    self.watch,
                    counters,
                    JobType::ScanWatchPath,
                    JobStatus::Running,
                ),
            }),
    {
        WatchEvent::AddWatchProgressed {
            report: counters.report(&self.watch, JobType::ScanWatchPath, JobStatus::Running),
        }
    }

    /// What the listeners are told when no more events can reach the
    /// reporter: the watch as active, and the final counters of a
    /// finished job on the watch as it was.
    pub fn finished(&self, counters: ReporterResult) -> (r: WatchEvent)
        ensures
            r == (WatchEvent::AddWatchFinished {
                watch: self.watch.with_status(WatchStatus::Active),
                report: report_of(
                    self.watch,
                    counters,
                    JobType::ScanWatchPath,
                    JobStatus::Finished,
                ),
            }),
    {
        WatchEvent::AddWatchFinished {
            watch: self.watch.active(),
            report: counters.report(&self.watch, JobType::ScanWatchPath, JobStatus::Finished),
        }
    }
}

/// The counters of a scan after the events of `events`, one after
/// another.
pub open spec fn scan_tally(events: Seq<ScanReportEvent>) -> (int, int, int)
    decreases events.len(),
{
    if events.len() == 0 {
        (0, 0, 0)
    } else {
        let before = scan_tally(events.drop_last());
        let more = scan_counted(ReporterResult { done: 0, failed: 0, total: 0 }, events.last());
        (before.0 + more.0, before.1 + more.1, before.2 + more.2)
    }
}

/// No counter counts more than there were events.
pub proof fn lemma_scan_tally_bounded(events: Seq<ScanReportEvent>)
    ensures
        0 <= scan_tally(events).0 <= events.len(),
        0 <= scan_tally(events).1 <= events.len(),
        0 <= scan_tally(events).2 <= events.len(),
    decreases events.len(),
{
    if events.len() > 0 {
        lemma_scan_tally_bounded(events.drop_last());
    }
}

/// The counters only grow: after the first `n` events no counter stands
/// higher than after all of them.
pub proof fn lemma_scan_tally_grows(events: Seq<ScanReportEvent>, n: int)
    requires
        0 <= n <= events.len(),
    ensures
        scan_tally(events.take(n)).0 <= scan_tally(events).0,
        scan_tally(events.take(n)).1 <= scan_tally(events).1,
        scan_tally(events.take(n)).2 <= scan_tally(events).2,
    decreases events.len(),
{
    if n == events.len() {
        assert(events.take(n) =~= events);
    } else {
        assert(events.drop_last().take(n) =~= events.take(n));
        lemma_scan_tally_grows(events.drop_last(), n);
    }
}

/// What the reporter of a scan of `watch` tells for the events of
/// `events`: the progress after each of them, and then the end. The
/// events are such that no counter passes the largest number it can
/// hold.
pub fn report(watch: &Watch, events: &Vec<ScanReportEvent>) -> (r: Vec<WatchEvent>)
    requires
        scan_tally(events@).0 <= u32::MAX,
        scan_tally(events@).1 <= u32::MAX,
        scan_tally(events@).2 <= u32::MAX,
    ensures
        r.len() == events.len() + 1,
        forall|i: int|
            0 <= i < events.len() ==> (#[trigger] r@[i] matches WatchEvent::AddWatchProgressed {
                report,
            } && report.watch == *watch && report.job_type == JobType::ScanWatchPath
                && report.status == JobStatus::Running && (
            report.progress.done as int,
            report.progress.failed as int,
            report.progress.total as int,
        ) == scan_tally(events@.take(i + 1))),
        r@[events.len() as int] matches WatchEvent::AddWatchFinished { watch: w, report } && w
            == watch.with_status(WatchStatus::Active) && report.watch == *watch && report.job_type
            == JobType::ScanWatchPath && report.status == JobStatus::Finished && (
        report.progress.done as int,
        report.progress.failed as int,
        report.progress.total as int,
    ) == scan_tally(events@),
{
    let job = ScanWatchJob { watch: watch.clone() };
    let mut out: Vec<WatchEvent> = Vec::new();
    let mut counters = ReporterResult::new();
    let mut i: usize = 0;
    while i < events.len()
        invariant
            i <= events.len(),
            scan_tally(events@).0 <= u32::MAX,
            scan_tally(events@).1 <= u32::MAX,
            scan_tally(events@).2 <= u32::MAX,
            job.watch == *watch,
            out.len() == i,
            counts(counters) == scan_tally(events@.take(i as int)),
            forall|j: int|
                0 <= j < i ==> (#[trigger] out@[j] matches WatchEvent::AddWatchProgressed {
                    report,
                } && report.watch == *watch && report.job_type == JobType::ScanWatchPath
                    && report.status == JobStatus::Running && (
                report.progress.done as int,
                report.progress.failed as int,
                report.progress.total as int,
            ) == scan_tally(events@.take(j + 1))),
        decreases events.len() - i,
    {
        proof {
            let next = events@.take(i + 1);
            assert(next.drop_last() =~= events@.take(i as int));
            lemma_scan_tally_grows(events@, i + 1);
        }
        counters = counters.after_scan_event(events[i]);
        out.push(job.progressed(counters));
        i = i + 1;
    }
    assert(events@.take(events.len() as int) =~= events@);
    out.push(job.finished(counters));
    out
}

} // verus!
