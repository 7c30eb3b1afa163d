use job_completion::error::Error;
use job_completion::job::{CompletedJob, JobKind, JobPayload, QueuedJob};
use job_completion::protocol::{Action, Event};
use job_completion::schedule::Schedule;
use job_completion::store::{Runnable, Services, Store, Usage};
use serde_json::Value;

fn named(of: &str) -> String {
    of.to_string()
}

fn waiting(id: u128, workspace_id: &str) -> QueuedJob {
    QueuedJob {
        id,
        workspace_id: named(workspace_id),
        parent_job: None,
        created_by: named("frank"),
        created_at: 0,
        started_at: Some(100),
        script_hash: None,
        script_path: None,
        args: None,
        job_kind: JobKind::Preview,
        schedule_path: None,
        permissioned_as: named("u/frank"),
        flow_status: None,
        is_flow_step: false,
        email: named("frank@example.com"),
        mem_peak: Some(id as i32),
        tag: named("python3"),
    }
}

fn finished(id: u128, duration_ms: Option<i64>, logs: &str) -> CompletedJob {
    CompletedJob {
        job: waiting(id, "w"),
        success: false,
        is_skipped: false,
        result: Value::from("first"),
        logs: named(logs),
        duration_ms,
        mem_peak: Some(8),
    }
}

fn monthly(workspace_id: &str, path: &str) -> Schedule {
    Schedule {
        workspace_id: named(workspace_id),
        path: named(path),
        edited_by: named("grace"),
        schedule: named("0 0 0 1 * *"),
        timezone: named("UTC"),
        enabled: true,
        script_path: named("f/invoice"),
        is_flow: true,
        args: None,
        email: named("grace@example.com"),
        error: None,
        on_failure: None,
    }
}

fn quiet() -> Services {
    Services { runnables: Vec::new(), not_found: named("nothing"), enqueue: Ok(1), push: Ok(()) }
}

fn store_row(db: &mut Store, row: CompletedJob) -> Option<i64> {
    match db.perform(Action::Upsert { row }, &quiet()) {
        Event::Stored(duration) => duration,
        other => panic!("answered {other:?}"),
    }
}

fn remove(db: &mut Store, workspace_id: &str, job: u128) {
    let action = Action::DeletePending { workspace_id: named(workspace_id), job };
    assert_eq!(db.perform(action, &quiet()), Event::Done);
}

#[test]
fn new_stores_are_empty() {
    let db = Store::new(true);
    assert_eq!(db.completed_count(), 0);
    assert_eq!(db.pending(1), None);
    assert_eq!(db.completed(1), None);
    assert_eq!(db.get_schedule(&named("w"), &named("p")), None);
    assert!(db.handlers().is_empty());
    assert!(db.occurrences().is_empty());
    assert!(db.acknowledged().is_empty());
    assert!(db.usage().is_empty());
    assert_eq!(db.executions(), 0);
    assert!(!db.in_transaction());
    assert!(!db.is_workspace_billed(&named("w")));
}

#[test]
fn stores_hold_each_identifier_once() {
    let mut db = Store::new(false);
    assert!(db.insert_pending(waiting(1, "w")));
    assert!(!db.insert_pending(waiting(1, "other")));
    assert!(db.insert_pending(waiting(2, "w")));
    assert_eq!(db.pending(1), Some(waiting(1, "w")));
    assert!(db.insert_completed(finished(1, Some(5), "a")));
    assert!(!db.insert_completed(finished(1, Some(6), "b")));
    assert_eq!(db.completed(1), Some(finished(1, Some(5), "a")));
    assert_eq!(db.completed_count(), 1);
    assert!(db.insert_schedule(monthly("w", "p")));
    assert!(!db.insert_schedule(Schedule { enabled: false, ..monthly("w", "p") }));
    assert!(db.insert_schedule(monthly("w", "q")));
    assert!(db.insert_schedule(monthly("v", "p")));
    assert_eq!(db.get_schedule(&named("w"), &named("p")), Some(monthly("w", "p")));
    assert_eq!(db.get_schedule(&named("v"), &named("p")), Some(monthly("v", "p")));
    assert_eq!(db.get_schedule(&named("v"), &named("q")), None);
}

#[test]
fn durations_are_summed_over_the_jobs_asked_for() {
    let mut db = Store::new(false);
    assert!(db.insert_completed(finished(1, Some(100), "")));
    assert!(db.insert_completed(finished(2, None, "")));
    assert!(db.insert_completed(finished(3, Some(50), "")));
    assert!(db.insert_completed(finished(4, Some(70), "")));
    assert!(db.insert_completed(finished(5, Some(-20), "")));
    assert_eq!(db.sum_durations(&vec![1, 3, 4]), Some(220));
    assert_eq!(db.sum_durations(&vec![4, 4, 1, 1, 99]), Some(170));
    assert_eq!(db.sum_durations(&vec![1, 2]), Some(100));
    assert_eq!(db.sum_durations(&vec![5]), Some(-20));
    assert_eq!(db.sum_durations(&vec![1, 5]), Some(80));
    assert_eq!(db.sum_durations(&vec![2]), None);
    assert_eq!(db.sum_durations(&vec![99]), None);
    assert_eq!(db.sum_durations(&Vec::new()), None);
}

#[test]
fn durations_whose_sum_is_no_duration_are_not_summed() {
    let mut db = Store::new(false);
    assert!(db.insert_completed(finished(1, Some(i64::MAX), "")));
    assert!(db.insert_completed(finished(2, Some(1), "")));
    assert!(db.insert_completed(finished(3, Some(i64::MIN), "")));
    assert_eq!(db.sum_durations(&vec![1, 2]), None);
    assert_eq!(db.sum_durations(&vec![1]), Some(i64::MAX));
    assert_eq!(db.sum_durations(&vec![1, 2, 3]), Some(0));
    assert_eq!(db.sum_durations(&vec![3]), Some(i64::MIN));
}

#[test]
fn durations_are_summed_over_what_is_committed() {
    let mut db = Store::new(false);
    assert!(db.insert_completed(finished(1, Some(100), "")));
    assert!(db.begin());
    assert_eq!(store_row(&mut db, finished(2, Some(11), "")), Some(11));
    assert_eq!(db.sum_durations(&vec![1, 2]), Some(100));
    assert!(db.commit());
    assert_eq!(db.sum_durations(&vec![1, 2]), Some(111));
}

#[test]
fn the_memory_peak_is_that_of_the_pending_job() {
    let mut db = Store::new(false);
    assert!(db.insert_pending(waiting(7, "w")));
    assert!(db.insert_pending(QueuedJob { mem_peak: None, ..waiting(8, "w") }));
    assert_eq!(db.peek_mem_peak(7), Some(7));
    assert_eq!(db.peek_mem_peak(8), None);
    assert_eq!(db.peek_mem_peak(9), None);
}

#[test]
fn a_first_upsert_fills_in_the_duration() {
    let mut db = Store::new(false);
    db.set_clock(350);
    assert!(db.begin());
    assert_eq!(store_row(&mut db, finished(1, None, "a")), Some(250));
    assert_eq!(store_row(&mut db, finished(2, Some(9), "a")), Some(9));
    let mut never = finished(3, None, "a");
    never.job.started_at = None;
    assert_eq!(store_row(&mut db, never), Some(0));
    let mut early = finished(4, None, "a");
    early.job.started_at = Some(1_000);
    assert_eq!(store_row(&mut db, early), Some(-650));
    let mut far = finished(5, None, "a");
    far.job.started_at = Some(i64::MIN + 10);
    assert_eq!(store_row(&mut db, far), None);
    assert!(db.commit());
    assert_eq!(db.completed(1), Some(finished(1, Some(250), "a")));
    assert_eq!(db.completed(5).unwrap().duration_ms, None);
}

#[test]
fn a_second_upsert_takes_over_the_outcome_and_adds_the_logs() {
    let mut db = Store::new(false);
    assert!(db.insert_completed(finished(1, Some(40), "one ")));
    assert!(db.insert_completed(finished(2, Some(41), "other")));
    assert!(db.begin());
    let later = CompletedJob {
        job: waiting(1, "elsewhere"),
        success: true,
        is_skipped: true,
        result: Value::from("second"),
        logs: named("two"),
        duration_ms: Some(7),
        mem_peak: None,
    };
    assert_eq!(store_row(&mut db, later), Some(40));
    assert!(db.commit());
    assert_eq!(
        db.completed(1),
        Some(CompletedJob {
            success: true,
            result: Value::from("second"),
            logs: named("one two"),
            ..finished(1, Some(40), "")
        })
    );
    assert_eq!(db.completed(2), Some(finished(2, Some(41), "other")));
    assert_eq!(db.completed_count(), 2);
}

#[test]
fn a_transaction_that_is_dropped_writes_nothing() {
    let mut db = Store::new(true);
    assert!(db.insert_pending(waiting(1, "w")));
    assert!(db.insert_completed(finished(2, Some(4), "kept")));
    assert!(db.begin());
    assert!(db.in_transaction());
    store_row(&mut db, finished(1, None, "x"));
    store_row(&mut db, finished(2, None, "x"));
    remove(&mut db, "w", 1);
    db.rollback();
    assert!(!db.in_transaction());
    assert_eq!(db.pending(1), Some(waiting(1, "w")));
    assert_eq!(db.completed(1), None);
    assert_eq!(db.completed(2), Some(finished(2, Some(4), "kept")));
    assert!(db.acknowledged().is_empty());
    db.rollback();
    assert!(!db.in_transaction());
}

#[test]
fn a_pending_job_is_removed_by_identifier_and_workspace() {
    let mut db = Store::new(true);
    assert!(db.insert_pending(waiting(1, "w")));
    assert!(db.insert_pending(waiting(2, "w")));
    assert!(db.insert_pending(waiting(3, "w")));
    assert!(db.begin());
    remove(&mut db, "w", 2);
    remove(&mut db, "other", 3);
    remove(&mut db, "w", 9);
    assert!(db.commit());
    assert!(db.pending(1).is_some());
    assert_eq!(db.pending(2), None);
    assert!(db.pending(3).is_some());
    assert_eq!(db.acknowledged(), vec![2, 3, 9]);
}

#[test]
fn disabling_a_schedule_records_why() {
    let mut db = Store::new(false);
    assert!(db.insert_schedule(monthly("w", "p")));
    assert!(db.insert_schedule(monthly("w", "q")));
    assert!(db.begin());
    db.disable_schedule(&named("w"), &named("q"), &Error::EscalationDispatch(named("gone")));
    db.disable_schedule(&named("w"), &named("nowhere"), &Error::UnexpectedReply);
    db.rollback();
    assert_eq!(db.get_schedule(&named("w"), &named("p")), Some(monthly("w", "p")));
    assert_eq!(
        db.get_schedule(&named("w"), &named("q")),
        Some(Schedule {
            enabled: false,
            error: Some(named("Could not trigger error handler: gone")),
            ..monthly("w", "q")
        })
    );
    db.disable_schedule(&named("w"), &named("q"), &Error::SchedulePush(named("again")));
    assert_eq!(db.get_schedule(&named("w"), &named("q")).unwrap().error, Some(named("again")));
}

#[test]
fn the_stores_answer_each_action() {
    let mut db = Store::new(true);
    db.set_clock(1_100);
    assert!(db.insert_pending(waiting(1, "w")));
    assert!(db.insert_schedule(monthly("w", "p")));
    db.bill_workspace(named("w"));
    let services = Services {
        runnables: vec![Runnable {
            workspace_id: named("w"),
            path: named("h"),
            payload: JobPayload::Flow { path: named("h") },
            tag: None,
        }],
        not_found: named("nothing"),
        enqueue: Ok(5),
        push: Err(named("no")),
    };
    assert_eq!(db.perform(Action::SumDurations { jobs: vec![1] }, &services), Event::Duration(None));
    assert_eq!(db.perform(Action::PeekMemPeak { job: 1 }, &services), Event::MemPeak(Some(1)));
    assert_eq!(db.perform(Action::Begin, &services), Event::Done);
    assert_eq!(
        db.perform(Action::Upsert { row: finished(1, None, "l") }, &services),
        Event::Stored(Some(1_000))
    );
    assert_eq!(
        db.perform(Action::DeletePending { workspace_id: named("w"), job: 1 }, &services),
        Event::Done
    );
    assert_eq!(
        db.perform(Action::GetSchedule { workspace_id: named("w"), path: named("p") }, &services),
        Event::Schedule(Some(monthly("w", "p")))
    );
    assert_eq!(
        db.perform(Action::GetSchedule { workspace_id: named("w"), path: named("x") }, &services),
        Event::Schedule(None)
    );
    assert_eq!(
        db.perform(
            Action::ResolvePayload { workspace_id: named("w"), path: named("h") },
            &services
        ),
        Event::Payload { payload: JobPayload::Flow { path: named("h") }, tag: None }
    );
    assert_eq!(
        db.perform(
            Action::ResolvePayload { workspace_id: named("w"), path: named("x") },
            &services
        ),
        Event::Failed(named("nothing"))
    );
    assert_eq!(
        db.perform(Action::PushNextOccurrence { schedule: monthly("w", "p") }, &services),
        Event::Failed(named("no"))
    );
    assert_eq!(
        db.perform(Action::PushNextOccurrence { schedule: monthly("w", "p") }, &quiet()),
        Event::Done
    );
    assert_eq!(db.perform(Action::Commit, &services), Event::Done);
    assert_eq!(db.perform(Action::CountExecution, &services), Event::Done);
    assert_eq!(
        db.perform(Action::IsWorkspaceBilled { workspace_id: named("w") }, &services),
        Event::Billed(true)
    );
    assert_eq!(
        db.perform(Action::IsWorkspaceBilled { workspace_id: named("v") }, &services),
        Event::Billed(false)
    );
    assert_eq!(
        db.perform(
            Action::RecordUsage { account: named("w"), is_workspace: true, units: 2 },
            &services
        ),
        Event::Done
    );
    assert_eq!(db.pending(1), None);
    assert_eq!(db.completed(1), Some(finished(1, Some(1_000), "l")));
    assert_eq!(db.occurrences(), vec![monthly("w", "p")]);
    assert_eq!(db.acknowledged(), vec![1]);
    assert_eq!(db.executions(), 1);
    assert_eq!(
        db.usage(),
        vec![Usage { account: named("w"), is_workspace: true, month: 0, units: 2 }]
    );
}

#[test]
fn the_stores_refuse_what_needs_another_state_of_the_transaction() {
    let mut db = Store::new(true);
    assert!(db.insert_pending(waiting(1, "w")));
    let no_transaction = Event::Failed(named("no transaction is open"));
    assert_eq!(db.perform(Action::Upsert { row: finished(1, None, "") }, &quiet()), no_transaction);
    assert_eq!(
        db.perform(Action::DeletePending { workspace_id: named("w"), job: 1 }, &quiet()),
        no_transaction
    );
    assert_eq!(
        db.perform(Action::PushNextOccurrence { schedule: monthly("w", "p") }, &quiet()),
        no_transaction
    );
    assert_eq!(db.perform(Action::Commit, &quiet()), no_transaction);
    assert!(!db.commit());
    assert!(db.begin());
    assert!(!db.begin());
    assert_eq!(db.perform(Action::Begin, &quiet()), Event::Failed(named("a transaction is open")));
    assert!(db.in_transaction());
    assert!(db.commit());
    assert_eq!(db.pending(1), Some(waiting(1, "w")));
    assert_eq!(db.completed(1), None);
    assert!(db.occurrences().is_empty());
    assert!(db.acknowledged().is_empty());
}
