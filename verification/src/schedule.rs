//! Schedules: what triggers a script or a flow again and again.
use crate::job::{copy_document, copy_text};
use serde_json::Value;
use vstd::prelude::*;

verus! {

/// A named trigger that enqueues a script or a flow at each time its recurrence gives.
#[derive(Debug, PartialEq)]
pub struct Schedule {
    pub workspace_id: String,
    pub path: String,
    /// Who last edited the schedule: the jobs that it triggers run in that name.
    pub edited_by: String,
    /// The recurrence, as a cron expression.
    pub schedule: String,
    pub timezone: String,
    pub enabled: bool,
    /// The script or flow that the schedule triggers.
    pub script_path: String,
    pub is_flow: bool,
    pub args: Option<Value>,
    pub email: String,
    /// Why the schedule was last disabled, if it was.
    pub error: Option<String>,
    /// The script or flow to run when a job of the schedule fails.
    pub on_failure: Option<String>,
}

impl Clone for Schedule {
    fn clone(&self) -> (copy: Self)
        ensures
            copy == *self,
    {
        Schedule {
            workspace_id: self.workspace_id.clone(),
            path: self.path.clone(),
            edited_by: self.edited_by.clone(),
            schedule: self.schedule.clone(),
            timezone: self.timezone.clone(),
            enabled: self.enabled,
            script_path: self.script_path.clone(),
            is_flow: self.is_flow,
            args: copy_document(&self.args),
            email: self.email.clone(),
            error: copy_text(&self.error),
            on_failure: copy_text(&self.on_failure),
        }
    }
}

impl Schedule {
    /// Whether the schedule may fire again for a job that ran `script_path`: it is enabled
    /// and still triggers that script.
    pub open spec fn fires_for(self, script_path: Seq<char>) -> bool {
        self.enabled && self.script_path@ == script_path
    }
}

} // verus!
