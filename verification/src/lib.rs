//! Completion of jobs and coordination of the schedules that triggered them.
//!
//! A worker that has run a job hands the outcome to a [`completion::Completion`], which
//! says, one exchange at a time, what to ask of the stores and of the services beside
//! them: the completion itself does no input or output. [`store::Store`] holds the stores
//! in memory, [`jobs`] runs completions against it from beginning to end, and [`laws`]
//! states what holds of every such run.

pub mod completion;
pub mod coordinator;
pub mod error;
pub mod escalation;
pub mod flow_status;
pub mod job;
pub mod jobs;
pub mod json;
pub mod laws;
pub mod protocol;
pub mod schedule;
pub mod store;
