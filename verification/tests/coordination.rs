use job_completion::error::Error;
use job_completion::job::JobPayload;
use job_completion::jobs::{handle_maybe_scheduled_job, handle_on_failure};
use job_completion::schedule::Schedule;
use job_completion::store::{Runnable, Services, Store};
use serde_json::Value;

fn text(of: &str) -> String {
    of.to_string()
}

fn nightly(on_failure: Option<&str>) -> Schedule {
    Schedule {
        workspace_id: text("w"),
        path: text("f/nightly"),
        edited_by: text("carol"),
        schedule: text("0 0 0 * * *"),
        timezone: text("Europe/Paris"),
        enabled: true,
        script_path: text("f/backup"),
        is_flow: false,
        args: Some(Value::from(7)),
        email: text("carol@example.com"),
        error: None,
        on_failure: on_failure.map(text),
    }
}

fn runnable(workspace_id: &str, path: &str, hash: i64, tag: Option<&str>) -> Runnable {
    Runnable {
        workspace_id: text(workspace_id),
        path: text(path),
        payload: JobPayload::Script { hash, path: text(path) },
        tag: tag.map(text),
    }
}

fn ready() -> Services {
    Services {
        runnables: vec![
            runnable("w", "script/alert", 1, None),
            runnable("other", "script/alert", 2, Some("other")),
            Runnable {
                workspace_id: text("w"),
                path: text("flow/alert"),
                payload: JobPayload::Flow { path: text("alert") },
                tag: Some(text("flows")),
            },
        ],
        not_found: text("no such handler"),
        enqueue: Ok(31),
        push: Ok(()),
    }
}

fn in_transaction(schedule: Schedule) -> Store {
    let mut db = Store::new(false);
    assert!(db.insert_schedule(schedule));
    assert!(db.begin());
    db
}

#[test]
fn escalation_enqueues_the_handler_that_is_at_the_path() {
    let mut db = Store::new(false);
    assert!(db.begin());
    let outcome = handle_on_failure(
        &mut db,
        &text("f/nightly"),
        &text("f/backup"),
        &text("w"),
        &text("flow/alert"),
        &Some(Value::from("boom")),
        &text("carol"),
        &text("carol@example.com"),
        &ready(),
    );
    assert_eq!(outcome, Ok(31));
    assert!(db.commit());
    let handlers = db.handlers();
    assert_eq!(handlers.len(), 1);
    assert_eq!(handlers[0].payload, JobPayload::Flow { path: text("alert") });
    assert_eq!(handlers[0].tag, Some(text("flows")));
    assert_eq!(handlers[0].failure, Some(Value::from("boom")));
    assert_eq!(handlers[0].schedule_path, "f/nightly");
    assert_eq!(handlers[0].script_path, "f/backup");
    assert_eq!(handlers[0].workspace_id, "w");
    assert_eq!(handlers[0].created_by, "carol");
    assert_eq!(handlers[0].email, "carol@example.com");
}

#[test]
fn escalation_goes_by_the_workspace_of_the_handler() {
    let mut db = Store::new(false);
    assert!(db.begin());
    handle_on_failure(
        &mut db,
        &text("f/nightly"),
        &text("f/backup"),
        &text("other"),
        &text("script/alert"),
        &None,
        &text("carol"),
        &text("carol@example.com"),
        &ready(),
    )
    .unwrap();
    assert!(db.commit());
    assert_eq!(db.handlers()[0].payload, JobPayload::Script { hash: 2, path: text("script/alert") });
    assert_eq!(db.handlers()[0].tag, Some(text("other")));
}

#[test]
fn escalation_takes_the_later_of_two_handlers_at_one_path() {
    let mut services = ready();
    services.runnables.push(runnable("w", "script/alert", 9, Some("late")));
    let mut db = Store::new(false);
    assert!(db.begin());
    handle_on_failure(
        &mut db,
        &text("f/nightly"),
        &text("f/backup"),
        &text("w"),
        &text("script/alert"),
        &None,
        &text("carol"),
        &text("carol@example.com"),
        &services,
    )
    .unwrap();
    assert!(db.commit());
    assert_eq!(db.handlers()[0].payload, JobPayload::Script { hash: 9, path: text("script/alert") });
}

#[test]
fn escalation_fails_where_nothing_is_at_the_path() {
    let mut db = Store::new(false);
    assert!(db.begin());
    let outcome = handle_on_failure(
        &mut db,
        &text("f/nightly"),
        &text("f/backup"),
        &text("w"),
        &text("script/gone"),
        &None,
        &text("carol"),
        &text("carol@example.com"),
        &ready(),
    );
    assert_eq!(outcome, Err(Error::EscalationDispatch(text("no such handler"))));
    assert!(db.commit());
    assert!(db.handlers().is_empty());
}

#[test]
fn escalation_fails_where_the_queue_does_not_take_the_handler() {
    let mut db = Store::new(false);
    assert!(db.begin());
    let services = Services { enqueue: Err(text("queue is down")), ..ready() };
    let outcome = handle_on_failure(
        &mut db,
        &text("f/nightly"),
        &text("f/backup"),
        &text("w"),
        &text("script/alert"),
        &None,
        &text("carol"),
        &text("carol@example.com"),
        &services,
    );
    assert_eq!(outcome, Err(Error::EscalationDispatch(text("queue is down"))));
    assert!(db.commit());
    assert!(db.handlers().is_empty());
}

#[test]
fn escalation_is_refused_without_a_transaction() {
    let mut db = Store::new(false);
    let outcome = handle_on_failure(
        &mut db,
        &text("f/nightly"),
        &text("f/backup"),
        &text("w"),
        &text("script/alert"),
        &None,
        &text("carol"),
        &text("carol@example.com"),
        &ready(),
    );
    assert_eq!(outcome, Err(Error::Persistence(text("no transaction is open"))));
    assert!(db.handlers().is_empty());
    assert!(!db.in_transaction());
}

#[test]
fn coordination_is_refused_without_a_transaction() {
    let mut db = Store::new(false);
    assert!(db.insert_schedule(nightly(None)));
    let outcome = handle_maybe_scheduled_job(
        &mut db,
        &text("f/nightly"),
        &text("f/backup"),
        &text("w"),
        true,
        &None,
        &ready(),
    );
    assert_eq!(outcome, Err(Error::Persistence(text("no transaction is open"))));
    assert!(db.occurrences().is_empty());
}

#[test]
fn coordination_pushes_the_next_occurrence_after_a_success() {
    let mut db = in_transaction(Schedule { error: Some(text("old")), ..nightly(Some("script/alert")) });
    let outcome = handle_maybe_scheduled_job(
        &mut db,
        &text("f/nightly"),
        &text("f/backup"),
        &text("w"),
        true,
        &None,
        &ready(),
    );
    assert_eq!(outcome, Ok(()));
    assert!(db.occurrences().is_empty());
    assert!(db.commit());
    assert_eq!(db.occurrences(), vec![nightly(Some("script/alert"))]);
    assert!(db.handlers().is_empty());
}

#[test]
fn coordination_escalates_a_failure_before_it_pushes() {
    let mut db = in_transaction(nightly(Some("script/alert")));
    let outcome = handle_maybe_scheduled_job(
        &mut db,
        &text("f/nightly"),
        &text("f/backup"),
        &text("w"),
        false,
        &Some(Value::from("boom")),
        &ready(),
    );
    assert_eq!(outcome, Ok(()));
    assert!(db.commit());
    assert_eq!(db.handlers().len(), 1);
    assert_eq!(db.handlers()[0].created_by, "carol");
    assert_eq!(db.handlers()[0].email, "carol@example.com");
    assert_eq!(db.handlers()[0].payload, JobPayload::Script { hash: 1, path: text("script/alert") });
    assert_eq!(db.handlers()[0].tag, None);
    assert_eq!(db.occurrences().len(), 1);
}

#[test]
fn coordination_does_nothing_where_the_guard_does_not_hold() {
    for schedule in [
        Schedule { enabled: false, ..nightly(Some("script/alert")) },
        Schedule { script_path: text("f/other"), ..nightly(Some("script/alert")) },
        Schedule { enabled: false, script_path: text("f/other"), ..nightly(Some("script/gone")) },
        Schedule { path: text("f/daily"), ..nightly(Some("script/gone")) },
    ] {
        let mut db = in_transaction(schedule.clone());
        let services = Services { push: Err(text("never")), ..ready() };
        let outcome = handle_maybe_scheduled_job(
            &mut db,
            &text("f/nightly"),
            &text("f/backup"),
            &text("w"),
            false,
            &Some(Value::from("boom")),
            &services,
        );
        assert_eq!(outcome, Ok(()));
        assert!(db.in_transaction());
        assert!(db.commit());
        assert!(db.handlers().is_empty());
        assert!(db.occurrences().is_empty());
        assert_eq!(db.get_schedule(&schedule.workspace_id, &schedule.path), Some(schedule));
    }
}

#[test]
fn coordination_disables_the_schedule_outside_the_transaction() {
    let mut db = in_transaction(nightly(Some("script/alert")));
    let services = Services { push: Err(text("bad cron")), ..ready() };
    let outcome = handle_maybe_scheduled_job(
        &mut db,
        &text("f/nightly"),
        &text("f/backup"),
        &text("w"),
        false,
        &None,
        &services,
    );
    assert_eq!(outcome, Err(Error::SchedulePush(text("bad cron"))));
    db.rollback();
    let schedule = db.get_schedule(&text("w"), &text("f/nightly")).unwrap();
    assert!(!schedule.enabled);
    assert_eq!(schedule.error, Some(text("bad cron")));
    assert!(db.handlers().is_empty());
    assert!(db.occurrences().is_empty());
}

#[test]
fn coordination_disables_only_the_schedule_at_the_path() {
    let mut db = Store::new(false);
    let weekly = Schedule { path: text("f/weekly"), ..nightly(None) };
    let elsewhere = Schedule { workspace_id: text("other"), ..nightly(None) };
    assert!(db.insert_schedule(weekly.clone()));
    assert!(db.insert_schedule(nightly(None)));
    assert!(db.insert_schedule(elsewhere.clone()));
    assert!(db.begin());
    let services = Services { push: Err(text("bad cron")), ..ready() };
    let outcome = handle_maybe_scheduled_job(
        &mut db,
        &text("f/nightly"),
        &text("f/backup"),
        &text("w"),
        true,
        &None,
        &services,
    );
    assert!(outcome.is_err());
    assert_eq!(db.get_schedule(&text("w"), &text("f/weekly")), Some(weekly));
    assert_eq!(db.get_schedule(&text("other"), &text("f/nightly")), Some(elsewhere));
    assert!(!db.get_schedule(&text("w"), &text("f/nightly")).unwrap().enabled);
}
