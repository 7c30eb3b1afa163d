//! Escalation: the failure of a scheduled job sets off the handler of its schedule.
use crate::error::Error;
use crate::job::{copy_document, HandlerJob};
use crate::protocol::{Action, Event, Run, Step};
use serde_json::Value;
use vstd::prelude::*;

verus! {

/// The run of one escalation: find what the handler runs, then enqueue it.
#[derive(Debug, PartialEq)]
pub enum Escalation {
    /// Waits to learn what the handler runs.
    Resolving {
        workspace_id: String,
        schedule_path: String,
        script_path: String,
        failure: Option<Value>,
        created_by: String,
        email: String,
    },
    /// Waits for the queue to take the handler.
    Enqueueing,
}

impl Escalation {
    /// How an escalation begins: it asks what the handler at `on_failure_path` runs.
    pub open spec fn begun(
        schedule_path: String,
        script_path: String,
        workspace_id: String,
        on_failure_path: String,
        failure: Option<Value>,
        created_by: String,
        email: String,
    ) -> Step<Escalation, u128> {
        Step::Ask(
            Escalation::Resolving {
                workspace_id,
                schedule_path,
                script_path,
                failure,
                created_by,
                email,
            },
            Action::ResolvePayload { workspace_id, path: on_failure_path },
        )
    }

    /// Begins the escalation of a failure with result `failure`, of a job that ran
    /// `script_path` for the schedule at `schedule_path`.
    pub fn start(
        schedule_path: &String,
        script_path: &String,
        workspace_id: &String,
        on_failure_path: &String,
        failure: &Option<Value>,
        created_by: &String,
        email: &String,
    ) -> (step: Step<Escalation, u128>)
        ensures
            step == Self::begun(
                *schedule_path,
                *script_path,
                *workspace_id,
                *on_failure_path,
                *failure,
                *created_by,
                *email,
            ),
    {
        Step::Ask(
            Escalation::Resolving {
                workspace_id: workspace_id.clone(),
                schedule_path: schedule_path.clone(),
                script_path: script_path.clone(),
                failure: copy_document(failure),
                created_by: created_by.clone(),
                email: email.clone(),
            },
            Action::ResolvePayload {
                workspace_id: workspace_id.clone(),
                path: on_failure_path.clone(),
            },
        )
    }
}

impl Run for Escalation {
    type Outcome = u128;

    /// How an escalation goes on after a reply. Once it knows what the handler runs, it
    /// enqueues one handler, for the workers that the reply names, with the failure and the
    /// two paths, in the name of who last edited the schedule. It ends with the handler's
    /// job, or with the error of whichever action failed.
    open spec fn next(self, reply: Event) -> Step<Escalation, u128> {
        match self {
            Escalation::Resolving {
                workspace_id,
                schedule_path,
                script_path,
                failure,
                created_by,
                email,
            } => match reply {
                Event::Payload { payload, tag } => Step::Ask(
                    Escalation::Enqueueing,
                    Action::Enqueue {
                        handler: HandlerJob {
                            workspace_id,
                            payload,
                            tag,
                            failure,
                            schedule_path,
                            script_path,
                            created_by,
                            email,
                        },
                    },
                ),
                Event::Failed(cause) => Step::Finish(Err(Error::EscalationDispatch(cause))),
                _ => Step::Finish(Err(Error::UnexpectedReply)),
            },
            Escalation::Enqueueing => match reply {
                Event::Enqueued(job) => Step::Finish(Ok(job)),
                Event::Failed(cause) => Step::Finish(Err(Error::EscalationDispatch(cause))),
                _ => Step::Finish(Err(Error::UnexpectedReply)),
            },
        }
    }

    /// An escalation takes two replies at most: what the handler runs, and the job that the
    /// queue made of the handler.
    open spec fn bound(self) -> nat {
        match self {
            Escalation::Resolving { .. } => 2,
            Escalation::Enqueueing => 1,
        }
    }

    proof fn lemma_run_ends(self, reply: Event) {
    }

    /// Goes on after the reply to the action last asked for.
    fn step(self, reply: Event) -> (step: Step<Escalation, u128>) {
        match self {
            Escalation::Resolving {
                workspace_id,
                schedule_path,
                script_path,
                failure,
                created_by,
                email,
            } => match reply {
                Event::Payload { payload, tag } => Step::Ask(
                    Escalation::Enqueueing,
                    Action::Enqueue {
                        handler: HandlerJob {
                            workspace_id,
                            payload,
                            tag,
                            failure,
                            schedule_path,
                            script_path,
                            created_by,
                            email,
                        },
                    },
                ),
                Event::Failed(cause) => Step::Finish(Err(Error::EscalationDispatch(cause))),
                _ => Step::Finish(Err(Error::UnexpectedReply)),
            },
            Escalation::Enqueueing => match reply {
                Event::Enqueued(job) => Step::Finish(Ok(job)),
                Event::Failed(cause) => Step::Finish(Err(Error::EscalationDispatch(cause))),
                _ => Step::Finish(Err(Error::UnexpectedReply)),
            },
        }
    }
}

} // verus!
