//! The job manager: it runs one job at a time, the oldest first.
//!
//! The manager remembers the job that is under way and keeps the queue.
//! It takes its commands one by one. What a command asks of the outside
//! world (to stop a task, to commit the index, to start a pipeline) is
//! named by the steps of the command; the manager's own part in each step
//! is one of the methods below.

use crate::job_queue::at_most_one_running;
use crate::job_queue::job_created;
use crate::job_queue::kept_jobs;
use crate::job_queue::lemma_one_running;
use crate::job_queue::not_job;
use crate::job_queue::not_pending_for;
use crate::job_queue::running_only_first;
use crate::job_queue::JobQueue;
use crate::by_time::inserted;
use crate::jobs::Job;
use crate::jobs::JobId;
use crate::jobs::JobStatus;
use crate::jobs::JobType;
use crate::watches::WatchId;
use vstd::prelude::*;

verus! {

/// What the manager is asked to do.
#[derive(Clone, Copy, Debug, PartialEq, Eq, Structural)]
pub enum JobManagerCommand {
    RunJob,
    EnqueueScanWatchJob(WatchId),
    EnqueueDeleteWatchJob(WatchId),
    EnqueueSyncWatchJob(WatchId),
    JobCompleted(JobId),
}

/// One step in carrying out a command. A command ends at the first step
/// that fails; the manager is then asked to run the next job.
#[derive(Clone, Copy, Debug, PartialEq, Eq, Structural)]
pub enum ManagerStep {
    /// Take the pending jobs of the watch out of the queue.
    DeletePendingJobs(WatchId),
    /// If the job under way belongs to the watch: stop it, wait for it to
    /// end, commit the index, and take the job out of the queue.
    CancelCurrentJob(WatchId),
    /// Put a new job for the watch into the queue.
    PushJob(JobType, WatchId),
    /// Take the job out of the queue.
    DeleteJob(JobId),
    /// Forget the job under way.
    ClearCurrentJob,
    /// Unless a job is under way: choose the next job, load its watch and
    /// start its pipeline.
    StartNextJob,
    /// Ask the manager to run the next job.
    SendRunJob,
}

/// The steps of `command`, in order.
pub open spec fn steps_of(command: JobManagerCommand) -> Seq<ManagerStep> {
    match command {
        JobManagerCommand::RunJob => seq![ManagerStep::StartNextJob],
        JobManagerCommand::EnqueueScanWatchJob(watch_id) => seq![
            ManagerStep::PushJob(JobType::ScanWatchPath, watch_id),
            ManagerStep::SendRunJob,
        ],
        JobManagerCommand::EnqueueDeleteWatchJob(watch_id) => seq![
            ManagerStep::DeletePendingJobs(watch_id),
            ManagerStep::CancelCurrentJob(watch_id),
            ManagerStep::PushJob(JobType::DeleteWatch, watch_id),
            ManagerStep::SendRunJob,
        ],
        JobManagerCommand::EnqueueSyncWatchJob(watch_id) => seq![
            ManagerStep::CancelCurrentJob(watch_id),
            ManagerStep::PushJob(JobType::SyncWatch, watch_id),
            ManagerStep::SendRunJob,
        ],
        JobManagerCommand::JobCompleted(job_id) => seq![
            ManagerStep::DeleteJob(job_id),
            ManagerStep::ClearCurrentJob,
            ManagerStep::SendRunJob,
        ],
    }
}

/// The steps of `command`, in order.
pub fn plan(command: JobManagerCommand) -> (r: Vec<ManagerStep>)
    ensures
        r@ == steps_of(command),
{
    let mut steps: Vec<ManagerStep> = Vec::new();
    match command {
        JobManagerCommand::RunJob => {
            steps.push(ManagerStep::StartNextJob);
        },
        JobManagerCommand::EnqueueScanWatchJob(watch_id) => {
            steps.push(ManagerStep::PushJob(JobType::ScanWatchPath, watch_id));
            steps.push(ManagerStep::SendRunJob);
        },
        JobManagerCommand::EnqueueDeleteWatchJob(watch_id) => {
            steps.push(ManagerStep::DeletePendingJobs(watch_id));
            steps.push(ManagerStep::CancelCurrentJob(watch_id));
            steps.push(ManagerStep::PushJob(JobType::DeleteWatch, watch_id));
            steps.push(ManagerStep::SendRunJob);
        },
        JobManagerCommand::EnqueueSyncWatchJob(watch_id) => {
            steps.push(ManagerStep::CancelCurrentJob(watch_id));
            steps.push(ManagerStep::PushJob(JobType::SyncWatch, watch_id));
            steps.push(ManagerStep::SendRunJob);
        },
        JobManagerCommand::JobCompleted(job_id) => {
            steps.push(ManagerStep::DeleteJob(job_id));
            steps.push(ManagerStep::ClearCurrentJob);
            steps.push(ManagerStep::SendRunJob);
        },
    }
    steps
}

/// What the manager is asked to do after a command has ended: after a
/// command that failed it is asked to run the next job, so that the
/// queue never stalls; after one that succeeded, nothing more.
pub fn after_command(succeeded: bool) -> (r: Option<JobManagerCommand>)
    ensures
        r == if succeeded {
            None
        } else {
            Some(JobManagerCommand::RunJob)
        },
{
    if succeeded {
        None
    } else {
        Some(JobManagerCommand::RunJob)
    }
}

/// One step in cancelling a job.
#[derive(Clone, Copy, Debug, PartialEq, Eq, Structural)]
pub enum CancelStep {
    /// Stop the job's task.
    AbortTask,
    /// Wait for the task to end.
    AwaitTask,
    /// Commit the search index, so that nothing half-written stays in
    /// its writer.
    CommitIndex,
    /// Take the job out of the queue.
    DeleteJob(JobId),
}

/// The steps in cancelling `job`, in order. What the job has written
/// stays; the next synchronisation of the watch puts it right.
pub fn cancel_steps(job: Job) -> (r: Vec<CancelStep>)
    ensures
        r@ == seq![
            CancelStep::AbortTask,
            CancelStep::AwaitTask,
            CancelStep::CommitIndex,
            CancelStep::DeleteJob(job.id),
        ],
{
    let mut steps: Vec<CancelStep> = Vec::new();
    steps.push(CancelStep::AbortTask);
    steps.push(CancelStep::AwaitTask);
    steps.push(CancelStep::CommitIndex);
    steps.push(CancelStep::DeleteJob(job.id));
    steps
}

/// The watches of `watches` of which `queue` holds no job.
pub open spec fn without_job(watches: Seq<WatchId>, jobs: Seq<Job>) -> Seq<WatchId>
    decreases watches.len(),
{
    if watches.len() == 0 {
        watches
    } else if exists|i: int| 0 <= i < jobs.len() && (#[trigger] jobs[i]).watch_id == watches.last() {
        without_job(watches.drop_last(), jobs)
    } else {
        without_job(watches.drop_last(), jobs).push(watches.last())
    }
}

/// The manager's memory: the job under way, and the queue.
pub struct JobManager {
    current_job: Option<Job>,
    job_queue: JobQueue,
}

impl JobManager {
    /// The job under way.
    pub closed spec fn current_job(&self) -> Option<Job> {
        self.current_job
    }

    /// The jobs in the queue, oldest first.
    pub closed spec fn jobs(&self) -> Seq<Job> {
        self.job_queue.jobs()
    }

    /// A manager with the queue `job_queue` and no job under way.
    pub fn new(job_queue: JobQueue) -> (r: Self)
        ensures
            r.current_job() is None,
            r.jobs() == job_queue.jobs(),
    {
        JobManager { current_job: None, job_queue }
    }

    /// The job under way.
    pub fn current(&self) -> (r: Option<Job>)
        ensures
            r == self.current_job(),
    {
        self.current_job
    }

    /// The steps that put a scan of the watch `watch_id` into the queue.
    pub fn enqueue_scan_watch_path_job(&self, watch_id: WatchId) -> (r: Vec<ManagerStep>)
        ensures
            r@ == steps_of(JobManagerCommand::EnqueueScanWatchJob(watch_id)),
    {
        plan(JobManagerCommand::EnqueueScanWatchJob(watch_id))
    }

    /// The steps that put the deletion of the watch `watch_id` into the
    /// queue: the pending jobs of the watch go first, then the job under
    /// way if it belongs to the watch.
    pub fn enqueue_delete_watch_job(&self, watch_id: WatchId) -> (r: Vec<ManagerStep>)
        ensures
            r@ == steps_of(JobManagerCommand::EnqueueDeleteWatchJob(watch_id)),
    {
        plan(JobManagerCommand::EnqueueDeleteWatchJob(watch_id))
    }

    /// The steps that put a synchronisation of the watch `watch_id` into
    /// the queue: the job under way goes first if it belongs to the watch.
    pub fn enqueue_sync_watch_job(&self, watch_id: WatchId) -> (r: Vec<ManagerStep>)
        ensures
            r@ == steps_of(JobManagerCommand::EnqueueSyncWatchJob(watch_id)),
    {
        plan(JobManagerCommand::EnqueueSyncWatchJob(watch_id))
    }

    /// The number of jobs in the queue.
    pub fn queue_len(&self) -> (r: usize)
        ensures
            r == self.jobs().len(),
    {
        self.job_queue.len()
    }

    /// The job at index `i` of the queue, oldest first.
    pub fn queued_job(&self, i: usize) -> (r: Job)
        requires
            i < self.jobs().len(),
        ensures
            r == self.jobs()[i as int],
    {
        self.job_queue.get(i)
    }

    /// The watches that get a synchronisation at startup: those of which
    /// the queue holds no job, in the order of `watches`.
    pub fn watches_to_sync(&self, watches: &Vec<WatchId>) -> (r: Vec<WatchId>)
        ensures
            r@ == without_job(watches@, self.jobs()),
    {
        let mut out: Vec<WatchId> = Vec::new();
        let mut i: usize = 0;
        while i < watches.len()
            invariant
                i <= watches.len(),
                out@ == without_job(watches@.take(i as int), self.jobs()),
            decreases watches.len() - i,
        {
            let ghost next = watches@.take(i + 1);
            assert(next.drop_last() =~= watches@.take(i as int));
            if !self.job_queue.has_job_for_watch_id(watches[i]) {
                out.push(watches[i]);
            }
            i = i + 1;
        }
        assert(watches@.take(watches.len() as int) =~= watches@);
        out
    }

    /// The manager's part in `StartNextJob`. While a job is under way
    /// nothing is chosen and nothing changes. Else the oldest job of the
    /// queue is chosen and marked as running; it becomes the job under way
    /// only once its pipeline has been started.
    pub fn run_job(self) -> (r: (Self, Option<Job>))
        ensures
            r.0.current_job() == self.current_job(),
            self.current_job() is Some ==> r.1 is None && r.0.jobs() == self.jobs(),
            self.current_job() is None && self.jobs().len() == 0 ==> r.1 is None && r.0.jobs()
                == self.jobs(),
            self.current_job() is None && self.jobs().len() > 0 ==> r.1 == Some(
                self.jobs()[0].with_status(JobStatus::Running),
            ) && r.0.jobs() == self.jobs().update(0, r.1->0),
            forall|i: int|
                0 <= i < r.0.jobs().len() && r.1 is Some ==> r.1->0.created_at.not_after(
                    r.0.jobs()[i].created_at,
                ),
            running_only_first(self.jobs()) ==> running_only_first(r.0.jobs())
                && at_most_one_running(r.0.jobs()),
    {
        let JobManager { current_job, job_queue } = self;
        if current_job.is_some() {
            proof {
                if running_only_first(job_queue.jobs()) {
                    lemma_one_running(job_queue.jobs());
                }
            }
            return (JobManager { current_job, job_queue }, None);
        }
        let (job_queue, chosen) = job_queue.pop_for_run();
        (JobManager { current_job, job_queue }, chosen)
    }

    /// Remembers `job` as the job under way, once its pipeline has been
    /// started.
    pub fn job_spawned(self, job: Job) -> (r: Self)
        ensures
            r.current_job() == Some(job),
            r.jobs() == self.jobs(),
    {
        JobManager { current_job: Some(job), job_queue: self.job_queue }
    }

    /// The manager's part in `PushJob`: the job that the store has made
    /// goes into the queue, behind every job that was not created after
    /// it.
    pub fn job_pushed(self, job: Job) -> (r: Self)
        ensures
            r.current_job() == self.current_job(),
            r.jobs() == inserted(self.jobs(), job, job_created()),
            running_only_first(self.jobs()) && job.status != JobStatus::Running && (
            self.jobs().len() > 0 ==> !job.created_at.before(self.jobs()[0].created_at))
                ==> running_only_first(r.jobs()),
    {
        JobManager { current_job: self.current_job, job_queue: self.job_queue.push(job) }
    }

    /// The manager's part in `DeletePendingJobs`.
    pub fn pending_jobs_deleted(self, watch_id: WatchId) -> (r: Self)
        ensures
            r.current_job() == self.current_job(),
            r.jobs() == kept_jobs(self.jobs(), not_pending_for(watch_id)),
            running_only_first(self.jobs()) ==> running_only_first(r.jobs()),
    {
        JobManager {
            current_job: self.current_job,
            job_queue: self.job_queue.delete_pending_jobs_by_watch_id(watch_id),
        }
    }

    /// The manager's part in `CancelCurrentJob`: where the job under way
    /// belongs to the watch `watch_id`, the manager forgets it and hands
    /// it out, to be stopped and then deleted. A job of another watch
    /// stays under way.
    pub fn cancel_current_job_for_watch_id(self, watch_id: WatchId) -> (r: (Self, Option<Job>))
        ensures
            r.0.jobs() == self.jobs(),
            r.1 == match self.current_job() {
                Some(job) => if job.watch_id == watch_id {
                    Some(job)
                } else {
                    None
                },
                None => None,
            },
            r.0.current_job() == if r.1 is Some {
                None
            } else {
                self.current_job()
            },
    {
        let JobManager { current_job, job_queue } = self;
        match current_job {
            Some(job) => {
                if job.watch_id.0 == watch_id.0 {
                    (JobManager { current_job: None, job_queue }, Some(job))
                } else {
                    (JobManager { current_job: Some(job), job_queue }, None)
                }
            },
            None => (JobManager { current_job: None, job_queue }, None),
        }
    }

    /// The manager's part in `DeleteJob`.
    pub fn job_deleted(self, id: JobId) -> (r: Self)
        ensures
            r.current_job() == self.current_job(),
            r.jobs() == kept_jobs(self.jobs(), not_job(id)),
            running_only_first(self.jobs()) ==> running_only_first(r.jobs()),
    {
        JobManager {
            current_job: self.current_job,
            job_queue: self.job_queue.delete_by_job_id(id),
        }
    }

    /// The manager's part in `ClearCurrentJob`.
    pub fn complete(self) -> (r: Self)
        ensures
            r.current_job() is None,
            r.jobs() == self.jobs(),
    {
        JobManager { current_job: None, job_queue: self.job_queue }
    }
}

} // verus!
