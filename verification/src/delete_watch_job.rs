//! The job that removes a watch: its documents go from both stores, the
//! index is committed, and then the watch's row goes.

use crate::job_steps::JobStep;
use crate::watch_state_sync::WatchEvent;
use crate::watches::Watch;
use vstd::prelude::*;

verus! {

/// The steps of a deletion.
pub open spec fn delete_steps() -> Seq<JobStep> {
    seq![
        JobStep::EmitStarted,
        JobStep::BeginTransaction,
        JobStep::DeleteDocuments,
        JobStep::CommitIndex,
        JobStep::DeleteWatchRow,
        JobStep::CommitTransaction,
        JobStep::EmitFinished,
    ]
}

/// A deletion of one watch.
#[derive(Debug, PartialEq, Eq)]
pub struct DeleteWatchJob {
    pub watch: Watch,
}

impl DeleteWatchJob {
    pub fn new(watch: Watch) -> (r: Self)
        ensures
            r.watch == watch,
    {
        DeleteWatchJob { watch }
    }

    /// The steps of the deletion, in order.
    pub fn start(&self) -> (r: Vec<JobStep>)
        ensures
            r@ == delete_steps(),
    {
        let mut steps: Vec<JobStep> = Vec::new();
        steps.push(JobStep::EmitStarted);
        steps.push(JobStep::BeginTransaction);
        steps.push(JobStep::DeleteDocuments);
        steps.push(JobStep::CommitIndex);
        steps.push(JobStep::DeleteWatchRow);
        steps.push(JobStep::CommitTransaction);
        steps.push(JobStep::EmitFinished);
        steps
    }

    /// What the listeners are told when the deletion starts.
    pub fn started(&self) -> (r: WatchEvent)
        ensures
            r == (WatchEvent::DeleteWatchStarted { watch: self.watch }),
    {
        WatchEvent::DeleteWatchStarted { watch: self.watch.clone() }
    }

    /// What the listeners are told when the watch is gone.
    pub fn finished(&self) -> (r: WatchEvent)
        ensures
            r == (WatchEvent::DeleteWatchFinished { watch: self.watch }),
    {
        WatchEvent::DeleteWatchFinished { watch: self.watch.clone() }
    }
}

} // verus!
