//! What a completion asks of the stores and of the other services, and what they answer.
use crate::error::Error;
use crate::job::{CompletedJob, HandlerJob, JobPayload};
use crate::schedule::Schedule;
use vstd::prelude::*;

verus! {

/// One thing to do on behalf of a completion. Whoever runs the completion does it and
/// hands back the reply.
///
/// From `Begin` to `Commit` the actions marked "in the transaction" take effect together
/// or not at all: where the completion ends in an error before `Commit` has been answered
/// with `Done`, the transaction is dropped.
#[derive(Debug, PartialEq)]
pub enum Action {
    /// Add up the durations of the completed jobs among `jobs`, each job once. Answered by
    /// `Duration`, with `None` where none of them has a duration.
    SumDurations { jobs: Vec<u128> },
    /// Read the memory peak that the pending store tracks for the job. Answered by `MemPeak`.
    PeekMemPeak { job: u128 },
    /// Open the transaction.
    Begin,
    /// In the transaction, write the completed job. Where the store holds none of that
    /// identifier, it keeps `row`, with the time the job took to run for a duration where
    /// `row` has none. Where it holds one, it takes over `success` and `result` and adds
    /// `logs` to the end of its logs. Answered by `Stored`, with the duration that the store
    /// now holds.
    Upsert { row: CompletedJob },
    /// In the transaction, remove the job from the pending store; where a message queue
    /// goes with the store, acknowledge the job's message with it.
    DeletePending { workspace_id: String, job: u128 },
    /// Read the schedule. Answered by `Schedule`, with `None` where there is none.
    GetSchedule { workspace_id: String, path: String },
    /// Find what the handler at `path` runs, and the workers that it is for. Answered by
    /// `Payload`.
    ResolvePayload { workspace_id: String, path: String },
    /// In the transaction, enqueue the handler. Answered by `Enqueued`, with the new job.
    Enqueue { handler: HandlerJob },
    /// In the transaction, enqueue the job of the schedule's next occurrence.
    PushNextOccurrence { schedule: Schedule },
    /// Outside the transaction, and for good whatever becomes of it: disable the schedule and
    /// record the text of `cause` as its error.
    DisableSchedule { workspace_id: String, path: String, cause: Error },
    /// Commit the transaction.
    Commit,
    /// Count one more execution.
    CountExecution,
    /// Say whether usage in the workspace is billed to the workspace. Answered by `Billed`.
    IsWorkspaceBilled { workspace_id: String },
    /// Add `units` to the usage of `account` in the month that it is.
    RecordUsage { account: String, is_workspace: bool, units: i64 },
}

/// The reply to an action.
#[derive(Debug, PartialEq)]
pub enum Event {
    /// The action was done; it has nothing to tell.
    Done,
    /// The action failed; the text says why.
    Failed(String),
    Duration(Option<i64>),
    MemPeak(Option<i32>),
    Stored(Option<i64>),
    Schedule(Option<Schedule>),
    Payload { payload: JobPayload, tag: Option<String> },
    Enqueued(u128),
    Billed(bool),
}

/// Where a run stands after a reply: it asks for one more action, or it has ended.
#[derive(Debug, PartialEq)]
pub enum Step<M, T> {
    Ask(M, Action),
    Finish(Result<T, Error>),
}

/// A run that goes on from reply to reply until it ends. It does nothing by itself: whoever
/// runs it does the action that it asks for, and hands the reply to `step`.
pub trait Run: Sized {
    /// What the run ends with where it ends well.
    type Outcome;

    /// How the run goes on after a reply.
    spec fn next(self, reply: Event) -> Step<Self, Self::Outcome>;

    /// How many replies the run takes at most before it ends.
    spec fn bound(self) -> nat;

    /// Every run ends: with each reply the run ends or gets nearer to its end.
    proof fn lemma_run_ends(self, reply: Event)
        ensures
            self.bound() > 0,
            self.next(reply) matches Step::Ask(run, _) ==> run.bound() < self.bound(),
    ;

    /// Goes on after the reply to the action last asked for.
    fn step(self, reply: Event) -> (step: Step<Self, Self::Outcome>)
        ensures
            step == self.next(reply),
    ;
}

} // verus!
