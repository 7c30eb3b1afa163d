//! Jobs: pending, completed, and those that a failed schedule sets off.
use crate::json::{
    as_str, empty_object, fields, inner_object, no_entries, set_entry, text_document, Object,
};
use serde_json::Value;
use vstd::prelude::*;
use vstd::string::*;

verus! {

/// What a job runs.
#[derive(Clone, Copy, Debug, PartialEq, Eq, Structural)]
pub enum JobKind {
    Script,
    Preview,
    Dependencies,
    Flow,
    FlowPreview,
    ScriptHub,
    Identity,
}

impl JobKind {
    /// Whether the job is a flow, whose duration is that of its steps.
    pub open spec fn is_flow(self) -> bool {
        self == JobKind::Flow || self == JobKind::FlowPreview
    }
}

/// A job that waits for a worker or is being run by one.
#[derive(Debug, PartialEq)]
pub struct QueuedJob {
    pub id: u128,
    pub workspace_id: String,
    pub parent_job: Option<u128>,
    pub created_by: String,
    /// When the job was created, in milliseconds since the epoch.
    pub created_at: i64,
    /// When a worker started the job, in milliseconds since the epoch.
    pub started_at: Option<i64>,
    pub script_hash: Option<i64>,
    pub script_path: Option<String>,
    pub args: Option<Value>,
    pub job_kind: JobKind,
    /// The schedule that triggered the job, if one did.
    pub schedule_path: Option<String>,
    pub permissioned_as: String,
    /// The status of the steps of a flow, as the flow recorded it.
    pub flow_status: Option<Value>,
    /// Whether the job is a step of a flow, and so not a job of its own to a user.
    pub is_flow_step: bool,
    pub email: String,
    /// The most memory that the job was seen to use, as tracked while it runs.
    pub mem_peak: Option<i32>,
    /// The pool of workers that may run the job.
    pub tag: String,
}

/// A copy of an optional text.
pub(crate) fn copy_text(text: &Option<String>) -> (copy: Option<String>)
    ensures
        copy == *text,
{
    match text {
        Some(inner) => Some(inner.clone()),
        None => None,
    }
}

/// A copy of an optional document.
pub(crate) fn copy_document(document: &Option<Value>) -> (copy: Option<Value>)
    ensures
        copy == *document,
{
    match document {
        Some(inner) => Some(inner.clone()),
        None => None,
    }
}

impl Clone for QueuedJob {
    fn clone(&self) -> (copy: Self)
        ensures
            copy == *self,
    {
        QueuedJob {
            id: self.id,
            workspace_id: self.workspace_id.clone(),
            parent_job: self.parent_job,
            created_by: self.created_by.clone(),
            created_at: self.created_at,
            started_at: self.started_at,
            script_hash: self.script_hash,
            script_path: copy_text(&self.script_path),
            args: copy_document(&self.args),
            job_kind: self.job_kind,
            schedule_path: copy_text(&self.schedule_path),
            permissioned_as: self.permissioned_as.clone(),
            flow_status: copy_document(&self.flow_status),
            is_flow_step: self.is_flow_step,
            email: self.email.clone(),
            mem_peak: self.mem_peak,
            tag: self.tag.clone(),
        }
    }
}

impl QueuedJob {
    /// Whether the completion of the job decides on a schedule: the job was triggered by
    /// one, runs a script of a known path, and is neither a flow nor a step of one.
    pub open spec fn drives_schedule(self) -> bool {
        &&& !self.is_flow_step
        &&& !self.job_kind.is_flow()
        &&& self.schedule_path is Some
        &&& self.script_path is Some
    }
}

/// A job that has ended, as the terminal store keeps it.
#[derive(Debug, PartialEq)]
pub struct CompletedJob {
    /// The job as it was pending.
    pub job: QueuedJob,
    pub success: bool,
    pub is_skipped: bool,
    pub result: Value,
    /// What the job printed; each further completion of the same job adds to it.
    pub logs: String,
    /// How long the job ran, in milliseconds; for a flow, how long its steps ran.
    pub duration_ms: Option<i64>,
    pub mem_peak: Option<i32>,
}

impl Clone for CompletedJob {
    fn clone(&self) -> (copy: Self)
        ensures
            copy == *self,
    {
        CompletedJob {
            job: self.job.clone(),
            success: self.success,
            is_skipped: self.is_skipped,
            result: self.result.clone(),
            logs: self.logs.clone(),
            duration_ms: self.duration_ms,
            mem_peak: self.mem_peak,
        }
    }
}

/// What a new job is to run.
#[derive(Debug, PartialEq, Eq)]
pub enum JobPayload {
    Script { hash: i64, path: String },
    Flow { path: String },
}

impl Clone for JobPayload {
    fn clone(&self) -> (copy: Self)
        ensures
            copy == *self,
    {
        match self {
            JobPayload::Script { hash, path } => JobPayload::Script {
                hash: *hash,
                path: path.clone(),
            },
            JobPayload::Flow { path } => JobPayload::Flow { path: path.clone() },
        }
    }
}

/// The job that handles the failure of a scheduled job.
#[derive(Debug, PartialEq)]
pub struct HandlerJob {
    pub workspace_id: String,
    pub payload: JobPayload,
    /// The pool of workers that may run the handler; `None` leaves the choice to the queue.
    pub tag: Option<String>,
    /// The result of the job that failed.
    pub failure: Option<Value>,
    /// The schedule that triggered the job that failed.
    pub schedule_path: String,
    /// The script that the job that failed ran.
    pub script_path: String,
    /// Who last edited the schedule: the handler runs in that name.
    pub created_by: String,
    pub email: String,
}

impl Clone for HandlerJob {
    fn clone(&self) -> (copy: Self)
        ensures
            copy == *self,
    {
        HandlerJob {
            workspace_id: self.workspace_id.clone(),
            payload: self.payload.clone(),
            tag: copy_text(&self.tag),
            failure: copy_document(&self.failure),
            schedule_path: self.schedule_path.clone(),
            script_path: self.script_path.clone(),
            created_by: self.created_by.clone(),
            email: self.email.clone(),
        }
    }
}

/// The pairs that a failure hands on to its handler: those of the failed job's result
/// where that is a JSON object, none otherwise.
pub open spec fn failure_entries(failure: Option<Value>) -> Map<Seq<char>, Value> {
    match failure {
        Some(result) => match fields(result) {
            Some(entries) => entries,
            None => no_entries(),
        },
        None => no_entries(),
    }
}

/// Whether `entries` are the arguments of the handler of a failure: the pairs of the
/// failure, with the schedule under `schedule_path` and the script under `path`.
pub open spec fn is_handler_args(
    failure: Option<Value>,
    schedule_path: Seq<char>,
    script_path: Seq<char>,
    entries: Map<Seq<char>, Value>,
) -> bool {
    &&& entries.dom() == failure_entries(failure).dom().insert("schedule_path"@).insert("path"@)
    &&& as_str(entries["schedule_path"@]) == Some(schedule_path)
    &&& as_str(entries["path"@]) == Some(script_path)
    &&& forall|key: Seq<char>|
        failure_entries(failure).contains_key(key) && key != "schedule_path"@ && key != "path"@
            ==> #[trigger] entries[key] == failure_entries(failure)[key]
}

/// The permission scope under which a job runs in the name of a user.
pub fn username_to_permissioned_as(user: &str) -> (scope: String)
    ensures
        scope@ == "u/"@ + user@,
{
    let mut scope = String::from_str("u/");
    scope.append(user);
    scope
}

impl HandlerJob {
    /// The arguments that the handler is given.
    pub fn args(&self) -> (args: Object)
        ensures
            is_handler_args(
                self.failure,
                self.schedule_path@,
                self.script_path@,
                crate::json::object_entries(args),
            ),
    {
        let mut args = match &self.failure {
            Some(result) => match inner_object(result) {
                Some(object) => object.clone(),
                None => empty_object(),
            },
            None => empty_object(),
        };
        proof {
            reveal_strlit("schedule_path");
            reveal_strlit("path");
            assert("schedule_path"@.len() != "path"@.len());
        }
        let _ = set_entry(
            &mut args,
            String::from_str("schedule_path"),
            text_document(self.schedule_path.clone()),
        );
        let _ = set_entry(&mut args, String::from_str("path"), text_document(self.script_path.clone()));
        proof {
            assert(crate::json::object_entries(args).dom() =~= failure_entries(
                self.failure,
            ).dom().insert("schedule_path"@).insert("path"@));
        }
        args
    }

    /// The permission scope under which the handler runs: that of who last edited the schedule.
    pub fn permissioned_as(&self) -> (scope: String)
        ensures
            scope@ == "u/"@ + self.created_by@,
    {
        username_to_permissioned_as(self.created_by.as_str())
    }
}

} // verus!
