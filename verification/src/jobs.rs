//! Jobs: units of background work against one watch.

use crate::text::same_text;
use crate::time::Timestamp;
use crate::watches::Watch;
use crate::watches::WatchId;
use vstd::prelude::*;

verus! {

/// The identifier of a job, assigned by the store.
#[derive(Clone, Copy, Debug, PartialEq, Eq, Hash, Structural)]
pub struct JobId(pub i64);

/// Where a job stands in its life.
#[derive(Clone, Copy, Debug, PartialEq, Eq, Structural)]
pub enum JobStatus {
    Pending,
    Running,
    Finished,
}

/// What a job does.
#[derive(Clone, Copy, Debug, PartialEq, Eq, Structural)]
pub enum JobType {
    /// Index a freshly added watch.
    ScanWatchPath,
    /// Remove a watch and its documents.
    DeleteWatch,
    /// Bring both stores in line with the disk.
    SyncWatch,
}

/// The status that the store writes as `name`.
pub open spec fn job_status_named(name: Seq<char>) -> Option<JobStatus> {
    if name == "pending"@ {
        Some(JobStatus::Pending)
    } else if name == "running"@ {
        Some(JobStatus::Running)
    } else if name == "finished"@ {
        Some(JobStatus::Finished)
    } else {
        None
    }
}

/// The job type that the store writes as `name`.
pub open spec fn job_type_named(name: Seq<char>) -> Option<JobType> {
    if name == "scan_watch_path"@ {
        Some(JobType::ScanWatchPath)
    } else if name == "delete_watch"@ {
        Some(JobType::DeleteWatch)
    } else if name == "sync_watch"@ {
        Some(JobType::SyncWatch)
    } else {
        None
    }
}

impl JobStatus {
    /// Reads a status from the name under which the store writes it.
    pub fn from_str(s: &str) -> (r: Result<JobStatus, ()>)
        ensures
            r == match job_status_named(s@) {
                Some(status) => Ok::<JobStatus, ()>(status),
                None => Err::<JobStatus, ()>(()),
            },
    {
        if same_text(s, "pending") {
            Ok(JobStatus::Pending)
        } else if same_text(s, "running") {
            Ok(JobStatus::Running)
        } else if same_text(s, "finished") {
            Ok(JobStatus::Finished)
        } else {
            Err(())
        }
    }

    /// The name under which the store writes the status. Reading that
    /// name gives the status back.
    pub fn as_str(&self) -> (r: &'static str)
        ensures
            job_status_named(r@) == Some(*self),
    {
        proof {
            reveal_strlit("pending");
            reveal_strlit("running");
            reveal_strlit("finished");
            assert("pending"@[0] == 'p' && "running"@[0] == 'r');
        }
        match self {
            JobStatus::Pending => "pending",
            JobStatus::Running => "running",
            JobStatus::Finished => "finished",
        }
    }
}

impl JobType {
    /// Reads a job type from the name under which the store writes it.
    pub fn from_str(s: &str) -> (r: Result<JobType, ()>)
        ensures
            r == match job_type_named(s@) {
                Some(job_type) => Ok::<JobType, ()>(job_type),
                None => Err::<JobType, ()>(()),
            },
    {
        if same_text(s, "scan_watch_path") {
            Ok(JobType::ScanWatchPath)
        } else if same_text(s, "delete_watch") {
            Ok(JobType::DeleteWatch)
        } else if same_text(s, "sync_watch") {
            Ok(JobType::SyncWatch)
        } else {
            Err(())
        }
    }

    /// The name under which the store writes the job type. Reading that
    /// name gives the job type back.
    pub fn as_str(&self) -> (r: &'static str)
        ensures
            job_type_named(r@) == Some(*self),
    {
        proof {
            reveal_strlit("scan_watch_path");
            reveal_strlit("delete_watch");
            reveal_strlit("sync_watch");
            assert("scan_watch_path"@.len() == 15 && "delete_watch"@.len() == 12
                && "sync_watch"@.len() == 10);
        }
        match self {
            JobType::ScanWatchPath => "scan_watch_path",
            JobType::DeleteWatch => "delete_watch",
            JobType::SyncWatch => "sync_watch",
        }
    }
}

/// An entry in the queue of work.
#[derive(Clone, Copy, Debug, PartialEq, Eq, Structural)]
pub struct Job {
    pub id: JobId,
    pub job_type: JobType,
    pub watch_id: WatchId,
    pub status: JobStatus,
    pub created_at: Timestamp,
    pub started_at: Timestamp,
}

impl Job {
    /// The same job with the status `status`.
    pub open spec fn with_status(self, status: JobStatus) -> Job {
        Job { status, ..self }
    }

    /// The same job, waiting.
    pub fn pending(&self) -> (r: Self)
        ensures
            r == self.with_status(JobStatus::Pending),
    {
        Job { status: JobStatus::Pending, ..*self }
    }

    /// The same job, running.
    pub fn running(&self) -> (r: Self)
        ensures
            r == self.with_status(JobStatus::Running),
    {
        Job { status: JobStatus::Running, ..*self }
    }

    /// The same job, running since `now`.
    pub fn started(&self, now: Timestamp) -> (r: Self)
        ensures
            r == (Job { status: JobStatus::Running, started_at: now, ..*self }),
    {
        Job { status: JobStatus::Running, started_at: now, ..*self }
    }

    /// The job that the store's row describes. The row's job type and
    /// status must be names that the store writes. The row's start time is
    /// not read: a job read from the store starts at its creation time.
    pub fn from_row(id: i64, watch_id: i64, job_type: &str, status: &str, created_at: Timestamp) -> (r:
        Self)
        requires
            job_type_named(job_type@) is Some,
            job_status_named(status@) is Some,
        ensures
            r == (Job {
                id: JobId(id),
                job_type: job_type_named(job_type@)->0,
                watch_id: WatchId(watch_id),
                status: job_status_named(status@)->0,
                created_at,
                started_at: created_at,
            }),
    {
        let job_type = match JobType::from_str(job_type) {
            Ok(job_type) => job_type,
            Err(_) => JobType::SyncWatch,
        };
        let status = match JobStatus::from_str(status) {
            Ok(status) => status,
            Err(_) => JobStatus::Pending,
        };
        Job {
            id: JobId(id),
            job_type,
            watch_id: WatchId(watch_id),
            status,
            created_at,
            started_at: created_at,
        }
    }
}

/// How far a running job has come.
#[derive(Clone, Copy, Debug, PartialEq, Eq, Structural)]
pub struct JobProgress {
    pub done: u32,
    pub failed: u32,
    pub total: u32,
}

impl JobProgress {
    pub fn new(done: u32, failed: u32, total: u32) -> (r: JobProgress)
        ensures
            r == (JobProgress { done, failed, total }),
    {
        JobProgress { done, failed, total }
    }
}

/// What a job says of itself while it runs and when it ends.
#[derive(Debug, PartialEq, Eq)]
pub struct JobReport {
    pub watch: Watch,
    pub progress: JobProgress,
    pub job_type: JobType,
    pub status: JobStatus,
}

impl Clone for JobReport {
    fn clone(&self) -> (r: Self)
        ensures
            r == *self,
    {
        JobReport {
            watch: self.watch.clone(),
            progress: self.progress,
            job_type: self.job_type,
            status: self.status,
        }
    }
}

} // verus!
