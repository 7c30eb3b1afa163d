//! Completion: a job that has ended moves from the pending store to the terminal store.
use crate::coordinator::ScheduleCoordinator;
use crate::error::Error;
use crate::flow_status::{flatten_jobs, leaf_jobs, FlowStatus, FlowStatusModule};
use crate::job::{CompletedJob, JobKind, QueuedJob};
use crate::protocol::{Action, Event, Run, Step};
use serde_json::Value;
use vstd::prelude::*;

verus! {

/// The run of one completion.
#[derive(Debug, PartialEq)]
pub struct Completion {
    /// The job that has ended.
    pub job: QueuedJob,
    pub success: bool,
    /// The result of the job where it failed.
    pub failure: Option<Value>,
    pub stage: Stage,
}

/// How far a completion has come. `row` is the completed job as far as it is known, and
/// `stored` the duration that the terminal store holds for it.
#[derive(Debug, PartialEq)]
pub enum Stage {
    /// Waits for the durations of a flow's steps.
    Summing { row: CompletedJob },
    /// Waits for the memory peak.
    Peeking { row: CompletedJob },
    /// Waits for the transaction to open.
    Beginning { row: CompletedJob },
    /// Waits for the terminal store to take the completed job.
    Storing,
    /// Waits for the pending store to drop the job.
    Deleting { stored: Option<i64> },
    /// Waits for the coordination of the schedule to go on.
    Coordinating { stored: Option<i64>, coordinator: ScheduleCoordinator },
    /// Waits for the transaction to commit.
    Committing { stored: Option<i64> },
    /// Waits for the execution to be counted.
    Counting { stored: Option<i64> },
    /// Waits to learn who is billed.
    Billing { units: i64 },
    /// Waits for the usage to be recorded.
    Recording,
}

/// All the steps that a flow recorded: its steps in order, then its failure step if one ran.
pub open spec fn recorded_steps(status: FlowStatus) -> Seq<FlowStatusModule> {
    match status.failure_module {
        Some(failure) => status.modules@.push(failure),
        None => status.modules@,
    }
}

/// The jobs whose durations make up the duration of a job: for a flow whose status could be
/// read, the jobs that count for its steps; `None` for any other job.
pub open spec fn children(kind: JobKind, status: Option<FlowStatus>) -> Option<Seq<u128>> {
    match status {
        Some(recorded) => if kind.is_flow() {
            Some(leaf_jobs(recorded_steps(recorded)))
        } else {
            None
        },
        None => None,
    }
}

/// The usage to record for a job that ran for `duration` milliseconds: none for a flow nor
/// for a job of up to a second, else one unit for each second begun.
pub open spec fn usage_units(kind: JobKind, duration: Option<i64>) -> Option<i64> {
    match duration {
        Some(ms) => if !kind.is_flow() && ms > 1000 {
            Some(((ms + 999) / 1000) as i64)
        } else {
            None
        },
        None => None,
    }
}

/// The usage to record for a job that ran for `duration` milliseconds.
pub fn units_of(kind: JobKind, duration: Option<i64>) -> (units: Option<i64>)
    ensures
        units == usage_units(kind, duration),
{
    let is_flow = kind == JobKind::Flow || kind == JobKind::FlowPreview;
    match duration {
        Some(ms) => {
            if !is_flow && ms > 1000 {
                let whole: i64 = ms / 1000;
                if ms % 1000 == 0 {
                    Some(whole)
                } else {
                    Some(whole + 1)
                }
            } else {
                None
            }
        },
        None => None,
    }
}

/// The result of a job as its failure: the result where the job failed.
pub open spec fn failure_of(success: bool, result: Value) -> Option<Value> {
    if success {
        None
    } else {
        Some(result)
    }
}

/// The completed job as a completion first knows it: duration and memory peak are still open.
pub open spec fn first_row(
    job: QueuedJob,
    success: bool,
    skipped: bool,
    result: Value,
    logs: String,
) -> CompletedJob {
    CompletedJob {
        job,
        success,
        is_skipped: skipped,
        result,
        logs,
        duration_ms: None,
        mem_peak: None,
    }
}

impl Completion {
    /// The completion at another stage.
    pub open spec fn at(self, stage: Stage) -> Completion {
        Completion { stage, ..self }
    }

    /// The request to read the memory peak, with the duration of the steps in the row.
    pub open spec fn peek_of(self, row: CompletedJob, duration: Option<i64>) -> Step<
        Completion,
        u128,
    > {
        Step::Ask(
            self.at(Stage::Peeking { row: CompletedJob { duration_ms: duration, ..row } }),
            Action::PeekMemPeak { job: self.job.id },
        )
    }

    /// The request to open the transaction, with the memory peak in the row.
    pub open spec fn begin_of(self, row: CompletedJob, mem_peak: Option<i32>) -> Step<
        Completion,
        u128,
    > {
        Step::Ask(self.at(Stage::Beginning { row: CompletedJob { mem_peak, ..row } }), Action::Begin)
    }

    /// The request to commit.
    pub open spec fn commit_of(self, stored: Option<i64>) -> Step<Completion, u128> {
        Step::Ask(self.at(Stage::Committing { stored }), Action::Commit)
    }

    /// How a completion goes on with a coordination that stands at `step`: it hands on what
    /// the coordination asks, commits once that has ended well, and ends with its error
    /// where it has not.
    pub open spec fn coordinated(
        self,
        step: Step<ScheduleCoordinator, ()>,
        stored: Option<i64>,
    ) -> Step<Completion, u128> {
        match step {
            Step::Ask(coordinator, action) => Step::Ask(
                self.at(Stage::Coordinating { stored, coordinator }),
                action,
            ),
            Step::Finish(Ok(_)) => self.commit_of(stored),
            Step::Finish(Err(cause)) => Step::Finish(Err(cause)),
        }
    }

    /// How a completion goes on once the job has left the pending store: with the
    /// coordination of its schedule where the job drives one, else with the commit.
    pub open spec fn deleted(self, stored: Option<i64>) -> Step<Completion, u128> {
        if self.job.drives_schedule() {
            self.coordinated(
                ScheduleCoordinator::begun(
                    self.job.schedule_path->0,
                    self.job.script_path->0,
                    self.job.workspace_id,
                    self.success,
                    self.failure,
                ),
                stored,
            )
        } else {
            self.commit_of(stored)
        }
    }

    /// How a completion goes on once the execution is counted: it asks who is billed where
    /// there is usage to record, and else ends with the job.
    pub open spec fn counted(self, stored: Option<i64>) -> Step<Completion, u128> {
        match usage_units(self.job.job_kind, stored) {
            Some(units) => Step::Ask(
                self.at(Stage::Billing { units }),
                Action::IsWorkspaceBilled { workspace_id: self.job.workspace_id },
            ),
            None => Step::Finish(Ok(self.job.id)),
        }
    }

    /// Begins the completion of `job`, which ended with `result` and printed `logs`.
    /// `flow_status` is the status that a flow recorded, where it could be read.
    ///
    /// The completion first asks for what the completed job needs: the durations of the
    /// jobs that count for the steps of a flow, then the memory peak.
    pub fn start(
        job: &QueuedJob,
        flow_status: Option<FlowStatus>,
        success: bool,
        skipped: bool,
        result: Value,
        logs: String,
    ) -> (step: Step<Completion, u128>)
        ensures
            match step {
                Step::Ask(run, action) => {
                    &&& run.job == *job
                    &&& run.success == success
                    &&& run.failure == failure_of(success, result)
                    &&& match children(job.job_kind, flow_status) {
                        Some(jobs) => {
                            &&& run.stage == Stage::Summing {
                                row: first_row(*job, success, skipped, result, logs),
                            }
                            &&& action matches Action::SumDurations { jobs: asked }
                            &&& asked@ == jobs
                        },
                        None => {
                            &&& run.stage == Stage::Peeking {
                                row: first_row(*job, success, skipped, result, logs),
                            }
                            &&& action == Action::PeekMemPeak { job: job.id }
                        },
                    }
                },
                Step::Finish(_) => false,
            },
    {
        let failure = if success {
            None
        } else {
            Some(result.clone())
        };
        let row = CompletedJob {
            job: job.clone(),
            success,
            is_skipped: skipped,
            result,
            logs,
            duration_ms: None,
            mem_peak: None,
        };
        let is_flow = job.job_kind == JobKind::Flow || job.job_kind == JobKind::FlowPreview;
        match flow_status {
            Some(status) if is_flow => {
                let mut modules = status.modules;
                match status.failure_module {
                    Some(failure_module) => modules.push(failure_module),
                    None => {},
                }
                let jobs = flatten_jobs(modules);
                Step::Ask(
                    Completion { job: job.clone(), success, failure, stage: Stage::Summing { row } },
                    Action::SumDurations { jobs },
                )
            },
            _ => Step::Ask(
                Completion { job: job.clone(), success, failure, stage: Stage::Peeking { row } },
                Action::PeekMemPeak { job: job.id },
            ),
        }
    }

    fn peek(self, row: CompletedJob, duration: Option<i64>) -> (step: Step<Completion, u128>)
        ensures
            step == self.peek_of(row, duration),
    {
        let mut row = row;
        row.duration_ms = duration;
        let action = Action::PeekMemPeak { job: self.job.id };
        Step::Ask(Completion { stage: Stage::Peeking { row }, ..self }, action)
    }

    fn begin(self, row: CompletedJob, mem_peak: Option<i32>) -> (step: Step<Completion, u128>)
        ensures
            step == self.begin_of(row, mem_peak),
    {
        let mut row = row;
        row.mem_peak = mem_peak;
        Step::Ask(Completion { stage: Stage::Beginning { row }, ..self }, Action::Begin)
    }

    fn commit(self, stored: Option<i64>) -> (step: Step<Completion, u128>)
        ensures
            step == self.commit_of(stored),
    {
        Step::Ask(Completion { stage: Stage::Committing { stored }, ..self }, Action::Commit)
    }

    fn coordinate(self, went: Step<ScheduleCoordinator, ()>, stored: Option<i64>) -> (step: Step<
        Completion,
        u128,
    >)
        ensures
            step == self.coordinated(went, stored),
    {
        match went {
            Step::Ask(coordinator, action) => Step::Ask(
                Completion { stage: Stage::Coordinating { stored, coordinator }, ..self },
                action,
            ),
            Step::Finish(Ok(_)) => self.commit(stored),
            Step::Finish(Err(cause)) => Step::Finish(Err(cause)),
        }
    }
}

impl Run for Completion {
    type Outcome = u128;

    /// How a completion goes on after a reply.
    ///
    /// What it reads before the transaction may fail: the duration or the memory peak then
    /// stays open. Inside the transaction it writes the completed job, drops the pending one
    /// and coordinates the schedule; a failure of any of these ends it with the error, before
    /// the commit. After the commit nothing fails it any more: it ends with the job whatever
    /// comes of counting the execution and recording the usage.
    open spec fn next(self, reply: Event) -> Step<Completion, u128> {
        match self.stage {
            Stage::Summing { row } => match reply {
                Event::Duration(duration) => self.peek_of(row, duration),
                Event::Failed(_) => self.peek_of(row, None),
                _ => Step::Finish(Err(Error::UnexpectedReply)),
            },
            Stage::Peeking { row } => match reply {
                Event::MemPeak(mem_peak) => self.begin_of(row, mem_peak),
                Event::Failed(_) => self.begin_of(row, None),
                _ => Step::Finish(Err(Error::UnexpectedReply)),
            },
            Stage::Beginning { row } => match reply {
                Event::Done => Step::Ask(self.at(Stage::Storing), Action::Upsert { row }),
                Event::Failed(cause) => Step::Finish(Err(Error::Persistence(cause))),
                _ => Step::Finish(Err(Error::UnexpectedReply)),
            },
            Stage::Storing => match reply {
                Event::Stored(stored) => Step::Ask(
                    self.at(Stage::Deleting { stored }),
                    Action::DeletePending {
                        workspace_id: self.job.workspace_id,
                        job: self.job.id,
                    },
                ),
                Event::Failed(cause) => Step::Finish(
                    Err(Error::AddCompleted { job: self.job.id, cause }),
                ),
                _ => Step::Finish(Err(Error::UnexpectedReply)),
            },
            Stage::Deleting { stored } => match reply {
                Event::Done => self.deleted(stored),
                Event::Failed(cause) => Step::Finish(Err(Error::Persistence(cause))),
                _ => Step::Finish(Err(Error::UnexpectedReply)),
            },
            Stage::Coordinating { stored, coordinator } => self.coordinated(
                coordinator.next(reply),
                stored,
            ),
            Stage::Committing { stored } => match reply {
                Event::Done => Step::Ask(self.at(Stage::Counting { stored }), Action::CountExecution),
                Event::Failed(cause) => Step::Finish(Err(Error::Persistence(cause))),
                _ => Step::Finish(Err(Error::UnexpectedReply)),
            },
            Stage::Counting { stored } => self.counted(stored),
            Stage::Billing { units } => match reply {
                Event::Billed(is_workspace) => Step::Ask(
                    self.at(Stage::Recording),
                    Action::RecordUsage {
                        account: if is_workspace {
                            self.job.workspace_id
                        } else {
                            self.job.email
                        },
                        is_workspace,
                        units,
                    },
                ),
                _ => Step::Finish(Ok(self.job.id)),
            },
            Stage::Recording => Step::Finish(Ok(self.job.id)),
        }
    }

    /// A completion takes fourteen replies at most: five until the pending job is removed,
    /// the five of a coordination, and four from the commit on.
    open spec fn bound(self) -> nat {
        match self.stage {
            Stage::Summing { .. } => 14,
            Stage::Peeking { .. } => 13,
            Stage::Beginning { .. } => 12,
            Stage::Storing => 11,
            Stage::Deleting { .. } => 10,
            Stage::Coordinating { coordinator, .. } => coordinator.bound() + 4,
            Stage::Committing { .. } => 4,
            Stage::Counting { .. } => 3,
            Stage::Billing { .. } => 2,
            Stage::Recording => 1,
        }
    }

    proof fn lemma_run_ends(self, reply: Event) {
        if let Stage::Coordinating { coordinator, .. } = self.stage {
            coordinator.lemma_run_ends(reply);
        }
    }

    /// Goes on after the reply to the action last asked for.
    fn step(self, reply: Event) -> (step: Step<Completion, u128>) {
        let Completion { job, success, failure, stage } = self;
        let run = Completion { job, success, failure, stage: Stage::Storing };
        match stage {
            Stage::Summing { row } => match reply {
                Event::Duration(duration) => run.peek(row, duration),
                Event::Failed(_) => run.peek(row, None),
                _ => Step::Finish(Err(Error::UnexpectedReply)),
            },
            Stage::Peeking { row } => match reply {
                Event::MemPeak(mem_peak) => run.begin(row, mem_peak),
                Event::Failed(_) => run.begin(row, None),
                _ => Step::Finish(Err(Error::UnexpectedReply)),
            },
            Stage::Beginning { row } => match reply {
                Event::Done => Step::Ask(run, Action::Upsert { row }),
                Event::Failed(cause) => Step::Finish(Err(Error::Persistence(cause))),
                _ => Step::Finish(Err(Error::UnexpectedReply)),
            },
            Stage::Storing => match reply {
                Event::Stored(stored) => {
                    let action = Action::DeletePending {
                        workspace_id: run.job.workspace_id.clone(),
                        job: run.job.id,
                    };
                    Step::Ask(Completion { stage: Stage::Deleting { stored }, ..run }, action)
                },
                Event::Failed(cause) => Step::Finish(
                    Err(Error::AddCompleted { job: run.job.id, cause }),
                ),
                _ => Step::Finish(Err(Error::UnexpectedReply)),
            },
            Stage::Deleting { stored } => match reply {
                Event::Done => {
                    let drives = !run.job.is_flow_step && run.job.job_kind != JobKind::Flow
                        && run.job.job_kind != JobKind::FlowPreview;
                    let started = match (&run.job.schedule_path, &run.job.script_path) {
                        (Some(schedule_path), Some(script_path)) if drives => Some(
                            ScheduleCoordinator::start(
                                schedule_path,
                                script_path,
                                &run.job.workspace_id,
                                run.success,
                                &run.failure,
                            ),
                        ),
                        _ => None,
                    };
                    match started {
                        Some(went) => run.coordinate(went, stored),
                        None => run.commit(stored),
                    }
                },
                Event::Failed(cause) => Step::Finish(Err(Error::Persistence(cause))),
                _ => Step::Finish(Err(Error::UnexpectedReply)),
            },
            Stage::Coordinating { stored, coordinator } => {
                let went = coordinator.step(reply);
                run.coordinate(went, stored)
            },
            Stage::Committing { stored } => match reply {
                Event::Done => Step::Ask(
                    Completion { stage: Stage::Counting { stored }, ..run },
                    Action::CountExecution,
                ),
                Event::Failed(cause) => Step::Finish(Err(Error::Persistence(cause))),
                _ => Step::Finish(Err(Error::UnexpectedReply)),
            },
            Stage::Counting { stored } => match units_of(run.job.job_kind, stored) {
                Some(units) => {
                    let action = Action::IsWorkspaceBilled {
                        workspace_id: run.job.workspace_id.clone(),
                    };
                    Step::Ask(Completion { stage: Stage::Billing { units }, ..run }, action)
                },
                None => Step::Finish(Ok(run.job.id)),
            },
            Stage::Billing { units } => match reply {
                Event::Billed(is_workspace) => {
                    let account = if is_workspace {
                        run.job.workspace_id.clone()
                    } else {
                        run.job.email.clone()
                    };
                    Step::Ask(
                        Completion { stage: Stage::Recording, ..run },
                        Action::RecordUsage { account, is_workspace, units },
                    )
                },
                _ => Step::Finish(Ok(run.job.id)),
            },
            Stage::Recording => Step::Finish(Ok(run.job.id)),
        }
    }
}

} // verus!
