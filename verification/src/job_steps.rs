//! The course of a job: the steps that its runner takes, in order.
//!
//! A job ends with an error at the first step that fails, but for the
//! step that waits for all tasks: what its tasks report is logged and the
//! job goes on.

use crate::tasks::Stage;
use vstd::prelude::*;

verus! {

/// One step of a job.
#[derive(Clone, Copy, Debug, PartialEq, Eq, Structural)]
pub enum JobStep {
    /// Tell the listeners that the job has started.
    EmitStarted,
    /// Start `tasks` tasks of `stage`.
    Spawn { stage: Stage, tasks: usize },
    /// Wait for the first task to end.
    JoinNext,
    /// Wait for all tasks to end.
    JoinAll,
    /// Commit the search index.
    CommitIndex,
    /// Set the watch's status to active.
    SetWatchActive,
    /// Open a transaction on the table of watches.
    BeginTransaction,
    /// Delete the watch's documents from both stores.
    DeleteDocuments,
    /// Delete the watch's row.
    DeleteWatchRow,
    /// Commit the transaction.
    CommitTransaction,
    /// Tell the listeners that the job has finished.
    EmitFinished,
}

/// Whether the job goes on after `step` ended, well or not.
pub open spec fn goes_on(step: JobStep, ok: bool) -> bool {
    ok || step is JoinAll
}

/// Whether the job goes on after `step` ended, well or not.
pub fn continues_after(step: JobStep, ok: bool) -> (r: bool)
    ensures
        r == goes_on(step, ok),
{
    ok || match step {
        JobStep::JoinAll => true,
        _ => false,
    }
}

} // verus!
