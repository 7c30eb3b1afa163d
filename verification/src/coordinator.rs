//! Coordination: what becomes of a schedule when a job that it triggered has ended.
use crate::error::Error;
use crate::escalation::Escalation;
use crate::job::copy_document;
use crate::protocol::{Action, Event, Run, Step};
use crate::schedule::Schedule;
use serde_json::Value;
use vstd::prelude::*;

verus! {

/// The run of one coordination: read the schedule, escalate a failure where the schedule
/// has a handler, push the next occurrence, and disable the schedule where either fails.
#[derive(Debug, PartialEq)]
pub enum ScheduleCoordinator {
    /// Waits for the schedule.
    Loading {
        workspace_id: String,
        schedule_path: String,
        script_path: String,
        success: bool,
        failure: Option<Value>,
    },
    /// Waits for an escalation to go on.
    Escalating { schedule: Schedule, workspace_id: String, escalation: Escalation },
    /// Waits for the next occurrence to be pushed.
    Pushing { workspace_id: String, path: String },
    /// Waits for the schedule to be disabled, to end with `cause`.
    Disabling { cause: Error },
}

/// The schedule as it is handed on for its next occurrence: in the workspace of the job,
/// and with no error.
pub open spec fn rearmed(schedule: Schedule, workspace_id: String) -> Schedule {
    Schedule { workspace_id, error: None, ..schedule }
}

/// The request to push the next occurrence of a schedule.
pub open spec fn push_of(schedule: Schedule, workspace_id: String) -> Step<
    ScheduleCoordinator,
    (),
> {
    Step::Ask(
        ScheduleCoordinator::Pushing { workspace_id: schedule.workspace_id, path: schedule.path },
        Action::PushNextOccurrence { schedule: rearmed(schedule, workspace_id) },
    )
}

/// The request to disable a schedule for good, to end with `cause`.
pub open spec fn disable_of(workspace_id: String, path: String, cause: Error) -> Step<
    ScheduleCoordinator,
    (),
> {
    Step::Ask(
        ScheduleCoordinator::Disabling { cause },
        Action::DisableSchedule { workspace_id, path, cause },
    )
}

/// How a coordination goes on with an escalation that stands at `step`: it hands on what the
/// escalation asks; once the handler is enqueued it pushes the next occurrence; where the
/// escalation failed it disables the schedule.
pub open spec fn escalated(
    step: Step<Escalation, u128>,
    schedule: Schedule,
    workspace_id: String,
) -> Step<ScheduleCoordinator, ()> {
    match step {
        Step::Ask(escalation, action) => Step::Ask(
            ScheduleCoordinator::Escalating { schedule, workspace_id, escalation },
            action,
        ),
        Step::Finish(Ok(_)) => push_of(schedule, workspace_id),
        Step::Finish(Err(cause)) => disable_of(schedule.workspace_id, schedule.path, cause),
    }
}

impl ScheduleCoordinator {
    /// How a coordination begins: it asks for the schedule.
    pub open spec fn begun(
        schedule_path: String,
        script_path: String,
        workspace_id: String,
        success: bool,
        failure: Option<Value>,
    ) -> Step<ScheduleCoordinator, ()> {
        Step::Ask(
            ScheduleCoordinator::Loading {
                workspace_id,
                schedule_path,
                script_path,
                success,
                failure,
            },
            Action::GetSchedule { workspace_id, path: schedule_path },
        )
    }

    /// How a coordination goes on once it has read the schedule. A missing schedule, a
    /// disabled one and one that triggers another script end it at once, with nothing done.
    /// Otherwise a failure is escalated first where the schedule has a handler, and then the
    /// next occurrence is pushed.
    pub open spec fn loaded(
        found: Option<Schedule>,
        workspace_id: String,
        schedule_path: String,
        script_path: String,
        success: bool,
        failure: Option<Value>,
    ) -> Step<ScheduleCoordinator, ()> {
        match found {
            None => Step::Finish(Ok(())),
            Some(schedule) => if !schedule.fires_for(script_path@) {
                Step::Finish(Ok(()))
            } else if !success && schedule.on_failure is Some {
                escalated(
                    Escalation::begun(
                        schedule_path,
                        script_path,
                        workspace_id,
                        schedule.on_failure->0,
                        failure,
                        schedule.edited_by,
                        schedule.email,
                    ),
                    schedule,
                    workspace_id,
                )
            } else {
                push_of(schedule, workspace_id)
            },
        }
    }

    /// Begins the coordination of the schedule at `schedule_path` after a job that ran
    /// `script_path` for it has ended; `failure` is the job's result where it failed.
    pub fn start(
        schedule_path: &String,
        script_path: &String,
        workspace_id: &String,
        success: bool,
        failure: &Option<Value>,
    ) -> (step: Step<ScheduleCoordinator, ()>)
        ensures
            step == Self::begun(*schedule_path, *script_path, *workspace_id, success, *failure),
    {
        Step::Ask(
            ScheduleCoordinator::Loading {
                workspace_id: workspace_id.clone(),
                schedule_path: schedule_path.clone(),
                script_path: script_path.clone(),
                success,
                failure: copy_document(failure),
            },
            Action::GetSchedule {
                workspace_id: workspace_id.clone(),
                path: schedule_path.clone(),
            },
        )
    }
}

impl Run for ScheduleCoordinator {
    type Outcome = ();

    /// How a coordination goes on after a reply. It ends well where there was nothing to do
    /// or the next occurrence was pushed. Where the escalation or the push failed, it
    /// disables the schedule and then ends with that failure. Where reading or disabling the
    /// schedule failed, it ends with the failure of the store.
    open spec fn next(self, reply: Event) -> Step<ScheduleCoordinator, ()> {
        match self {
            ScheduleCoordinator::Loading {
                workspace_id,
                schedule_path,
                script_path,
                success,
                failure,
            } => match reply {
                Event::Schedule(found) => Self::loaded(
                    found,
                    workspace_id,
                    schedule_path,
                    script_path,
                    success,
                    failure,
                ),
                Event::Failed(cause) => Step::Finish(Err(Error::Persistence(cause))),
                _ => Step::Finish(Err(Error::UnexpectedReply)),
            },
            ScheduleCoordinator::Escalating { schedule, workspace_id, escalation } => escalated(
                escalation.next(reply),
                schedule,
                workspace_id,
            ),
            ScheduleCoordinator::Pushing { workspace_id, path } => match reply {
                Event::Done => Step::Finish(Ok(())),
                Event::Failed(cause) => disable_of(workspace_id, path, Error::SchedulePush(cause)),
                _ => Step::Finish(Err(Error::UnexpectedReply)),
            },
            ScheduleCoordinator::Disabling { cause } => match reply {
                Event::Done => Step::Finish(Err(cause)),
                Event::Failed(reason) => Step::Finish(Err(Error::Persistence(reason))),
                _ => Step::Finish(Err(Error::UnexpectedReply)),
            },
        }
    }

    /// A coordination takes five replies at most: the schedule, the two of an escalation,
    /// the push, and the disabling of the schedule.
    open spec fn bound(self) -> nat {
        match self {
            ScheduleCoordinator::Loading { .. } => 5,
            ScheduleCoordinator::Escalating { escalation, .. } => escalation.bound() + 2,
            ScheduleCoordinator::Pushing { .. } => 2,
            ScheduleCoordinator::Disabling { .. } => 1,
        }
    }

    proof fn lemma_run_ends(self, reply: Event) {
        if let ScheduleCoordinator::Escalating { escalation, .. } = self {
            escalation.lemma_run_ends(reply);
        }
    }

    /// Goes on after the reply to the action last asked for.
    fn step(self, reply: Event) -> (step: Step<ScheduleCoordinator, ()>) {
        match self {
            ScheduleCoordinator::Loading {
                workspace_id,
                schedule_path,
                script_path,
                success,
                failure,
            } => match reply {
                Event::Schedule(found) => match found {
                    None => Step::Finish(Ok(())),
                    Some(schedule) => {
                        if !(schedule.enabled && schedule.script_path == script_path) {
                            Step::Finish(Ok(()))
                        } else if !success && schedule.on_failure.is_some() {
                            let started = match &schedule.on_failure {
                                Some(handler) => Escalation::start(
                                    &schedule_path,
                                    &script_path,
                                    &workspace_id,
                                    handler,
                                    &failure,
                                    &schedule.edited_by,
                                    &schedule.email,
                                ),
                                None => Step::Finish(Err(Error::UnexpectedReply)),
                            };
                            proceed(started, schedule, workspace_id)
                        } else {
                            push(schedule, workspace_id)
                        }
                    },
                },
                Event::Failed(cause) => Step::Finish(Err(Error::Persistence(cause))),
                _ => Step::Finish(Err(Error::UnexpectedReply)),
            },
            ScheduleCoordinator::Escalating { schedule, workspace_id, escalation } => proceed(
                escalation.step(reply),
                schedule,
                workspace_id,
            ),
            ScheduleCoordinator::Pushing { workspace_id, path } => match reply {
                Event::Done => Step::Finish(Ok(())),
                Event::Failed(cause) => disable(workspace_id, path, Error::SchedulePush(cause)),
                _ => Step::Finish(Err(Error::UnexpectedReply)),
            },
            ScheduleCoordinator::Disabling { cause } => match reply {
                Event::Done => Step::Finish(Err(cause)),
                Event::Failed(reason) => Step::Finish(Err(Error::Persistence(reason))),
                _ => Step::Finish(Err(Error::UnexpectedReply)),
            },
        }
    }
}

fn push(schedule: Schedule, workspace_id: String) -> (step: Step<ScheduleCoordinator, ()>)
    ensures
        step == push_of(schedule, workspace_id),
{
    let state = ScheduleCoordinator::Pushing {
        workspace_id: schedule.workspace_id.clone(),
        path: schedule.path.clone(),
    };
    let mut next = schedule;
    next.workspace_id = workspace_id;
    next.error = None;
    Step::Ask(state, Action::PushNextOccurrence { schedule: next })
}

fn disable(workspace_id: String, path: String, cause: Error) -> (step: Step<
    ScheduleCoordinator,
    (),
>)
    ensures
        step == disable_of(workspace_id, path, cause),
{
    Step::Ask(
        ScheduleCoordinator::Disabling { cause: cause.clone() },
        Action::DisableSchedule { workspace_id, path, cause },
    )
}

fn proceed(step: Step<Escalation, u128>, schedule: Schedule, workspace_id: String) -> (next: Step<
    ScheduleCoordinator,
    (),
>)
    ensures
        next == escalated(step, schedule, workspace_id),
{
    match step {
        Step::Ask(escalation, action) => Step::Ask(
            ScheduleCoordinator::Escalating { schedule, workspace_id, escalation },
            action,
        ),
        Step::Finish(Ok(_)) => push(schedule, workspace_id),
        Step::Finish(Err(cause)) => disable(schedule.workspace_id, schedule.path, cause),
    }
}

} // verus!
