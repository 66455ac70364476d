//! The queue of jobs: first in, first out by time of creation.
//!
//! The queue holds every job that waits or runs, oldest first. The job
//! chosen to run is always the oldest; it stays in the queue, marked as
//! running, until it is deleted on completion or cancellation.

use crate::by_time::ascending;
use crate::by_time::inserted;
use crate::by_time::lemma_inserted;
use crate::jobs::Job;
use crate::jobs::JobId;
use crate::jobs::JobStatus;
use crate::time::Timestamp;
use crate::watches::WatchId;
use vstd::prelude::*;

verus! {

/// The time by which the queue is ordered.
pub open spec fn job_created() -> spec_fn(Job) -> Timestamp {
    |j: Job| j.created_at
}

/// The jobs of `jobs` that `keep` holds of, in order.
pub open spec fn kept_jobs(jobs: Seq<Job>, keep: spec_fn(Job) -> bool) -> Seq<Job>
    decreases jobs.len(),
{
    if jobs.len() == 0 {
        jobs
    } else if keep(jobs.last()) {
        kept_jobs(jobs.drop_last(), keep).push(jobs.last())
    } else {
        kept_jobs(jobs.drop_last(), keep)
    }
}

/// Every job but the pending jobs of the watch `watch_id`.
pub open spec fn not_pending_for(watch_id: WatchId) -> spec_fn(Job) -> bool {
    |j: Job| !(j.watch_id == watch_id && j.status == JobStatus::Pending)
}

/// Every job but the job `id`.
pub open spec fn not_job(id: JobId) -> spec_fn(Job) -> bool {
    |j: Job| j.id != id
}

/// No job but the first is running.
pub open spec fn running_only_first(jobs: Seq<Job>) -> bool {
    forall|i: int| 0 < i < jobs.len() ==> jobs[i].status != JobStatus::Running
}

/// At most one job is running.
pub open spec fn at_most_one_running(jobs: Seq<Job>) -> bool {
    forall|i: int, j: int|
        0 <= i < jobs.len() && 0 <= j < jobs.len() && jobs[i].status == JobStatus::Running
            && jobs[j].status == JobStatus::Running ==> i == j
}

/// Where only the first job may run, at most one job runs.
pub proof fn lemma_one_running(jobs: Seq<Job>)
    requires
        running_only_first(jobs),
    ensures
        at_most_one_running(jobs),
{
}

/// What stays of `jobs` comes from `jobs`, in the same order: each job
/// that stays stood at an index of `jobs` that is no smaller than its new
/// one, `keep` holds of it, and the jobs that stay are ordered as before.
pub proof fn lemma_kept_jobs(jobs: Seq<Job>, keep: spec_fn(Job) -> bool)
    ensures
        kept_jobs(jobs, keep).len() <= jobs.len(),
        forall|k: int|
            0 <= k < kept_jobs(jobs, keep).len() ==> exists|m: int|
                k <= m < jobs.len() && jobs[m] == #[trigger] kept_jobs(jobs, keep)[k],
        forall|k: int| 0 <= k < kept_jobs(jobs, keep).len() ==> keep(#[trigger] kept_jobs(jobs, keep)[k]),
        forall|m: int| 0 <= m < jobs.len() && keep(jobs[m]) ==> kept_jobs(jobs, keep).contains(#[trigger] jobs[m]),
        ascending(jobs, job_created()) ==> ascending(kept_jobs(jobs, keep), job_created()),
        running_only_first(jobs) ==> running_only_first(kept_jobs(jobs, keep)),
    decreases jobs.len(),
{
    if jobs.len() > 0 {
        let init = jobs.drop_last();
        let r = kept_jobs(jobs, keep);
        let t = kept_jobs(init, keep);
        lemma_kept_jobs(init, keep);
        assert forall|k: int| 0 <= k < r.len() implies exists|m: int|
            k <= m < jobs.len() && jobs[m] == #[trigger] r[k] by {
            if k < t.len() {
                let m = choose|m: int| k <= m < init.len() && init[m] == t[k];
            }
        }
        assert forall|m: int| 0 <= m < jobs.len() && keep(jobs[m]) implies r.contains(
            #[trigger] jobs[m],
        ) by {
            if m < init.len() {
                let k = choose|k: int| 0 <= k < t.len() && t[k] == init[m];
                assert(r[k] == jobs[m]);
            } else {
                assert(r[r.len() - 1] == jobs[m]);
            }
        }
        if ascending(jobs, job_created()) {
            assert forall|i: int, j: int| 0 <= i < j < r.len() implies job_created()(
                r[i],
            ).not_after(job_created()(r[j])) by {
                if j < t.len() {
                } else {
                    let m = choose|m: int| i <= m < init.len() && init[m] == t[i];
                }
            }
        }
        if running_only_first(jobs) {
            assert forall|i: int| 0 < i < r.len() implies r[i].status != JobStatus::Running by {
            }
        }
    }
}

/// Inserting by time puts the job at the index behind which every job is
/// later, and before which the nearest job is not.
pub proof fn lemma_inserted_at(jobs: Seq<Job>, job: Job, p: int)
    requires
        0 <= p <= jobs.len(),
        forall|k: int| p <= k < jobs.len() ==> job.created_at.before(jobs[k].created_at),
        p > 0 ==> !job.created_at.before(jobs[p - 1].created_at),
    ensures
        inserted(jobs, job, job_created()) == jobs.insert(p, job),
    decreases jobs.len() - p,
{
    if p < jobs.len() {
        let init = jobs.drop_last();
        lemma_inserted_at(init, job, p);
    }
}

/// The queue of jobs, oldest first.
pub struct JobQueue {
    jobs: Vec<Job>,
}

impl JobQueue {
    #[verifier::type_invariant]
    spec fn inv(&self) -> bool {
        ascending(self.jobs@, job_created())
    }

    /// The jobs in the queue, oldest first.
    pub closed spec fn jobs(&self) -> Seq<Job> {
        self.jobs@
    }

    /// The empty queue.
    pub fn new() -> (r: Self)
        ensures
            r.jobs() == Seq::<Job>::empty(),
    {
        JobQueue { jobs: Vec::new() }
    }

    /// The number of jobs in the queue. The jobs stand oldest first.
    pub fn len(&self) -> (r: usize)
        ensures
            r == self.jobs().len(),
            ascending(self.jobs(), job_created()),
    {
        proof {
            use_type_invariant(self);
        }
        self.jobs.len()
    }

    /// The job at index `i`.
    pub fn get(&self, i: usize) -> (r: Job)
        requires
            i < self.jobs().len(),
        ensures
            r == self.jobs()[i as int],
    {
        self.jobs[i]
    }

    /// Puts `job` into the queue: behind every job that was not created
    /// after it. A waiting job that is no older than the head of the queue
    /// leaves the head where it is, so that still no job but the first
    /// runs.
    pub fn push(self, job: Job) -> (r: Self)
        ensures
            r.jobs() == inserted(self.jobs(), job, job_created()),
            r.jobs().to_multiset() == self.jobs().to_multiset().insert(job),
            running_only_first(self.jobs()) && job.status != JobStatus::Running && (
            self.jobs().len() > 0 ==> !job.created_at.before(self.jobs()[0].created_at))
                ==> running_only_first(r.jobs()),
    {
        proof {
            use_type_invariant(&self);
            lemma_inserted(self.jobs@, job, job_created());
        }
        let ghost before = self.jobs@;
        let mut jobs = self.jobs;
        let mut p: usize = jobs.len();
        while p > 0 && job.created_at.is_before(&jobs[p - 1].created_at)
            invariant
                p <= jobs.len(),
                jobs@ == before,
                forall|k: int| p <= k < jobs.len() ==> job.created_at.before(jobs@[k].created_at),
            decreases p,
        {
            p = p - 1;
        }
        proof {
            lemma_inserted_at(before, job, p as int);
        }
        jobs.insert(p, job);
        proof {
            if running_only_first(before) && job.status != JobStatus::Running && (before.len() > 0
                ==> !job.created_at.before(before[0].created_at)) {
                assert forall|i: int| 0 < i < jobs@.len() implies jobs@[i].status
                    != JobStatus::Running by {
                }
            }
        }
        JobQueue { jobs }
    }

    /// Chooses the job to run: the oldest, which is marked as running and
    /// stays at the head of the queue. No job that stays queued is older
    /// than the chosen one. An empty queue gives none.
    pub fn pop_for_run(self) -> (r: (Self, Option<Job>))
        ensures
            self.jobs().len() == 0 ==> r.1 is None && r.0.jobs() == self.jobs(),
            self.jobs().len() > 0 ==> r.1 == Some(self.jobs()[0].with_status(JobStatus::Running))
                && r.0.jobs() == self.jobs().update(0, r.1->0),
            forall|i: int|
                0 <= i < r.0.jobs().len() && r.1 is Some ==> r.1->0.created_at.not_after(
                    r.0.jobs()[i].created_at,
                ),
            running_only_first(self.jobs()) ==> running_only_first(r.0.jobs())
                && at_most_one_running(r.0.jobs()),
    {
        proof {
            use_type_invariant(&self);
        }
        let ghost before = self.jobs@;
        let mut jobs = self.jobs;
        if jobs.len() == 0 {
            return (JobQueue { jobs }, None);
        }
        let job = jobs[0].running();
        jobs.set(0, job);
        proof {
            assert forall|i: int, j: int| 0 <= i < j < jobs@.len() implies job_created()(
                jobs@[i],
            ).not_after(job_created()(jobs@[j])) by {
            }
            assert forall|i: int| 0 <= i < jobs@.len() implies job.created_at.not_after(
                jobs@[i].created_at,
            ) by {
            }
            if running_only_first(before) {
                lemma_one_running(jobs@);
            }
        }
        (JobQueue { jobs }, Some(job))
    }

    fn keep(self, watch_id: WatchId, id: JobId, by_watch: bool) -> (r: Self)
        ensures
            r.jobs() == kept_jobs(
                self.jobs(),
                if by_watch {
                    not_pending_for(watch_id)
                } else {
                    not_job(id)
                },
            ),
    {
        proof {
            use_type_invariant(&self);
        }
        let ghost keep = if by_watch {
            not_pending_for(watch_id)
        } else {
            not_job(id)
        };
        let mut out: Vec<Job> = Vec::new();
        let mut i: usize = 0;
        while i < self.jobs.len()
            invariant
                i <= self.jobs.len(),
                out@ == kept_jobs(self.jobs@.take(i as int), keep),
                keep == if by_watch {
                    not_pending_for(watch_id)
                } else {
                    not_job(id)
                },
            decreases self.jobs.len() - i,
        {
            let job = self.jobs[i];
            let ghost next = self.jobs@.take(i + 1);
            assert(next.drop_last() =~= self.jobs@.take(i as int));
            let stays = if by_watch {
                !(job.watch_id.0 == watch_id.0 && match job.status {
                    JobStatus::Pending => true,
                    _ => false,
                })
            } else {
                job.id.0 != id.0
            };
            if stays {
                out.push(job);
            }
            i = i + 1;
        }
        assert(self.jobs@.take(self.jobs.len() as int) =~= self.jobs@);
        proof {
            lemma_kept_jobs(self.jobs@, keep);
        }
        JobQueue { jobs: out }
    }

    /// Takes the pending jobs of the watch `watch_id` out of the queue.
    /// What stays keeps its order, and still no job but the first runs.
    pub fn delete_pending_jobs_by_watch_id(self, watch_id: WatchId) -> (r: Self)
        ensures
            r.jobs() == kept_jobs(self.jobs(), not_pending_for(watch_id)),
            running_only_first(self.jobs()) ==> running_only_first(r.jobs()),
    {
        proof {
            lemma_kept_jobs(self.jobs(), not_pending_for(watch_id));
        }
        self.keep(watch_id, JobId(0), true)
    }

    /// Takes the job `id` out of the queue. What stays keeps its order,
    /// and still no job but the first runs.
    pub fn delete_by_job_id(self, id: JobId) -> (r: Self)
        ensures
            r.jobs() == kept_jobs(self.jobs(), not_job(id)),
            running_only_first(self.jobs()) ==> running_only_first(r.jobs()),
    {
        proof {
            lemma_kept_jobs(self.jobs(), not_job(id));
        }
        self.keep(WatchId(0), id, false)
    }

    /// Whether the queue holds a job of the watch `watch_id`, waiting or
    /// running.
    pub fn has_job_for_watch_id(&self, watch_id: WatchId) -> (r: bool)
        ensures
            r == exists|i: int|
                0 <= i < self.jobs().len() && (#[trigger] self.jobs()[i]).watch_id == watch_id,
    {
        let mut i: usize = 0;
        while i < self.jobs.len()
            invariant
                i <= self.jobs.len(),
                forall|j: int| 0 <= j < i ==> (#[trigger] self.jobs@[j]).watch_id != watch_id,
            decreases self.jobs.len() - i,
        {
            if self.jobs[i].watch_id.0 == watch_id.0 {
                return true;
            }
            i = i + 1;
        }
        false
    }
}

/// What happens to the queue.
pub enum QueueEvent {
    /// A job is put into the queue.
    Push(Job),
    /// The job to run is chosen.
    Choose,
    /// The pending jobs of a watch are taken out.
    DeletePending(WatchId),
    /// A job is taken out.
    DeleteJob(JobId),
}

/// The queue after `events`, starting from `jobs`.
pub open spec fn queue_after(jobs: Seq<Job>, events: Seq<QueueEvent>) -> Seq<Job>
    decreases events.len(),
{
    if events.len() == 0 {
        jobs
    } else {
        let before = queue_after(jobs, events.drop_last());
        match events.last() {
            QueueEvent::Push(job) => inserted(before, job, job_created()),
            QueueEvent::Choose => if before.len() > 0 {
                before.update(0, before[0].with_status(JobStatus::Running))
            } else {
                before
            },
            QueueEvent::DeletePending(watch_id) => kept_jobs(before, not_pending_for(watch_id)),
            QueueEvent::DeleteJob(id) => kept_jobs(before, not_job(id)),
        }
    }
}

/// The jobs that were chosen during `events`, in the order in which they
/// were chosen.
pub open spec fn chosen_during(jobs: Seq<Job>, events: Seq<QueueEvent>) -> Seq<Job>
    decreases events.len(),
{
    if events.len() == 0 {
        Seq::<Job>::empty()
    } else {
        let before = queue_after(jobs, events.drop_last());
        let chosen = chosen_during(jobs, events.drop_last());
        match events.last() {
            QueueEvent::Choose => if before.len() > 0 {
                chosen.push(before[0].with_status(JobStatus::Running))
            } else {
                chosen
            },
            _ => chosen,
        }
    }
}

/// The clock never goes back: no job is put into the queue with a time
/// of creation before that of a job that was chosen already.
pub open spec fn clock_runs_on(jobs: Seq<Job>, events: Seq<QueueEvent>) -> bool
    decreases events.len(),
{
    events.len() > 0 ==> clock_runs_on(jobs, events.drop_last()) && (events.last() matches QueueEvent::Push(
        job,
    ) ==> forall|i: int|
        0 <= i < chosen_during(jobs, events.drop_last()).len() ==> !job.created_at.before(
            (#[trigger] chosen_during(jobs, events.drop_last())[i]).created_at,
        ))
}

/// Every job that is put into a list by time stood in the list before or
/// is the job that was put in.
proof fn lemma_inserted_members(jobs: Seq<Job>, job: Job)
    ensures
        forall|i: int|
            0 <= i < inserted(jobs, job, job_created()).len() ==> (#[trigger] inserted(
                jobs,
                job,
                job_created(),
            )[i]) == job || jobs.contains(inserted(jobs, job, job_created())[i]),
    decreases jobs.len(),
{
    let r = inserted(jobs, job, job_created());
    if jobs.len() > 0 && job_created()(job).before(job_created()(jobs.last())) {
        let init = jobs.drop_last();
        let t = inserted(init, job, job_created());
        lemma_inserted_members(init, job);
        assert forall|i: int| 0 <= i < r.len() implies (#[trigger] r[i]) == job || jobs.contains(
            r[i],
        ) by {
            if i < t.len() {
                if t[i] != job {
                    let m = choose|m: int| 0 <= m < init.len() && init[m] == t[i];
                }
            }
        }
    } else {
        assert forall|i: int| 0 <= i < r.len() implies (#[trigger] r[i]) == job || jobs.contains(
            r[i],
        ) by {
        }
    }
}

/// While the clock never goes back, the jobs are chosen in the order of
/// their creation: no job is chosen before one that was created earlier.
/// Beside that, the queue stays ordered, and no job that waits in it was
/// created before a job that was chosen.
pub proof fn lemma_jobs_are_chosen_in_order(jobs: Seq<Job>, events: Seq<QueueEvent>)
    requires
        ascending(jobs, job_created()),
        clock_runs_on(jobs, events),
    ensures
        ascending(chosen_during(jobs, events), job_created()),
        ascending(queue_after(jobs, events), job_created()),
        forall|i: int, j: int|
            0 <= i < chosen_during(jobs, events).len() && 0 <= j < queue_after(jobs, events).len()
                ==> (#[trigger] chosen_during(jobs, events)[i]).created_at.not_after(
                (#[trigger] queue_after(jobs, events)[j]).created_at,
            ),
    decreases events.len(),
{
    let queue = queue_after(jobs, events);
    let chosen = chosen_during(jobs, events);
    if events.len() > 0 {
        let before = queue_after(jobs, events.drop_last());
        let earlier = chosen_during(jobs, events.drop_last());
        lemma_jobs_are_chosen_in_order(jobs, events.drop_last());
        match events.last() {
            QueueEvent::Push(job) => {
                lemma_inserted(before, job, job_created());
                lemma_inserted_members(before, job);
                assert forall|i: int, j: int|
                    0 <= i < chosen.len() && 0 <= j < queue.len() implies (#[trigger] chosen[i]).created_at.not_after(
                    (#[trigger] queue[j]).created_at,
                ) by {
                    if queue[j] != job {
                        let m = choose|m: int| 0 <= m < before.len() && before[m] == queue[j];
                    }
                }
            },
            QueueEvent::Choose => {
                if before.len() > 0 {
                    assert forall|i: int, j: int| 0 <= i < j < queue.len() implies job_created()(
                        queue[i],
                    ).not_after(job_created()(queue[j])) by {
                    }
                    assert forall|i: int, j: int| 0 <= i < j < chosen.len() implies job_created()(
                        chosen[i],
                    ).not_after(job_created()(chosen[j])) by {
                    }
                    assert forall|i: int, j: int|
                        0 <= i < chosen.len() && 0 <= j < queue.len() implies (#[trigger] chosen[i]).created_at.not_after(
                        (#[trigger] queue[j]).created_at,
                    ) by {
                    }
                }
            },
            QueueEvent::DeletePending(watch_id) => {
                lemma_kept_jobs(before, not_pending_for(watch_id));
                assert forall|i: int, j: int|
                    0 <= i < chosen.len() && 0 <= j < queue.len() implies (#[trigger] chosen[i]).created_at.not_after(
                    (#[trigger] queue[j]).created_at,
                ) by {
                    let m = choose|m: int| j <= m < before.len() && before[m] == queue[j];
                }
            },
            QueueEvent::DeleteJob(id) => {
                lemma_kept_jobs(before, not_job(id));
                assert forall|i: int, j: int|
                    0 <= i < chosen.len() && 0 <= j < queue.len() implies (#[trigger] chosen[i]).created_at.not_after(
                    (#[trigger] queue[j]).created_at,
                ) by {
                    let m = choose|m: int| j <= m < before.len() && before[m] == queue[j];
                }
            },
        }
    }
}

/// Every job that is put into the queue during `events` waits, and was
/// not created before the job at the head of the queue.
pub open spec fn newcomers_wait(jobs: Seq<Job>, events: Seq<QueueEvent>) -> bool
    decreases events.len(),
{
    events.len() > 0 ==> newcomers_wait(jobs, events.drop_last()) && (events.last() matches QueueEvent::Push(
        job,
    ) ==> job.status != JobStatus::Running && (queue_after(jobs, events.drop_last()).len() > 0
        ==> !job.created_at.before(queue_after(jobs, events.drop_last())[0].created_at)))
}

/// A waiting job that is put into the queue by time, and that was not
/// created before the job at the head, goes behind the head: still no
/// job but the first runs.
pub proof fn lemma_newcomer_goes_behind(jobs: Seq<Job>, job: Job)
    requires
        running_only_first(jobs),
        job.status != JobStatus::Running,
        jobs.len() > 0 ==> !job.created_at.before(jobs[0].created_at),
    ensures
        running_only_first(inserted(jobs, job, job_created())),
        jobs.len() > 0 ==> inserted(jobs, job, job_created())[0] == jobs[0],
        inserted(jobs, job, job_created()).len() == jobs.len() + 1,
    decreases jobs.len(),
{
    let r = inserted(jobs, job, job_created());
    if jobs.len() > 0 && job_created()(job).before(job_created()(jobs.last())) {
        let init = jobs.drop_last();
        lemma_newcomer_goes_behind(init, job);
        let t = inserted(init, job, job_created());
        assert forall|i: int| 0 < i < r.len() implies r[i].status != JobStatus::Running by {
        }
    } else {
        assert forall|i: int| 0 < i < r.len() implies r[i].status != JobStatus::Running by {
        }
    }
}

/// At every moment at most one job of the queue is running: that holds
/// after any events, as long as it is the head that runs at the start, if
/// a job does, and every newcomer waits behind the head.
pub proof fn lemma_one_job_runs(jobs: Seq<Job>, events: Seq<QueueEvent>)
    requires
        running_only_first(jobs),
        newcomers_wait(jobs, events),
    ensures
        running_only_first(queue_after(jobs, events)),
        at_most_one_running(queue_after(jobs, events)),
    decreases events.len(),
{
    let queue = queue_after(jobs, events);
    if events.len() > 0 {
        let before = queue_after(jobs, events.drop_last());
        lemma_one_job_runs(jobs, events.drop_last());
        match events.last() {
            QueueEvent::Push(job) => {
                lemma_newcomer_goes_behind(before, job);
            },
            QueueEvent::Choose => {},
            QueueEvent::DeletePending(watch_id) => {
                lemma_kept_jobs(before, not_pending_for(watch_id));
            },
            QueueEvent::DeleteJob(id) => {
                lemma_kept_jobs(before, not_job(id));
            },
        }
    }
    lemma_one_running(queue);
}

} // verus!
