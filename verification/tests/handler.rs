use job_completion::error::Error;
use job_completion::job::{username_to_permissioned_as, HandlerJob, JobPayload};
use job_completion::jobs::error_result;
use serde_json::Value;

fn handler_for(failure: Option<Value>) -> HandlerJob {
    HandlerJob {
        workspace_id: "w".to_string(),
        payload: JobPayload::Flow { path: "f/handler".to_string() },
        tag: None,
        failure,
        schedule_path: "f/every_hour".to_string(),
        script_path: "f/report".to_string(),
        created_by: "alice".to_string(),
        email: "alice@example.com".to_string(),
    }
}

fn object_of(pairs: &[(&str, Value)]) -> serde_json::Map<String, Value> {
    let mut object = serde_json::Map::new();
    for (key, value) in pairs {
        object.insert(key.to_string(), value.clone());
    }
    object
}

#[test]
fn handler_args_are_the_failure_and_the_two_paths() {
    let failure = Value::Object(object_of(&[("error", Value::from("boom"))]));
    let args = handler_for(Some(failure)).args();
    let expected = object_of(&[
        ("error", Value::from("boom")),
        ("schedule_path", Value::from("f/every_hour")),
        ("path", Value::from("f/report")),
    ]);
    assert_eq!(args, expected);
    assert_eq!(args.len(), 3);
}

#[test]
fn handler_args_of_no_failure_are_the_two_paths() {
    let args = handler_for(None).args();
    let expected = object_of(&[
        ("schedule_path", Value::from("f/every_hour")),
        ("path", Value::from("f/report")),
    ]);
    assert_eq!(args, expected);
}

#[test]
fn handler_args_of_a_failure_that_is_no_object_are_the_two_paths() {
    for failure in [
        Value::from("boom"),
        Value::from(3),
        Value::Null,
        Value::from(vec![Value::from(1)]),
    ] {
        let args = handler_for(Some(failure)).args();
        assert_eq!(args.len(), 2);
        assert_eq!(args.get("schedule_path").and_then(|v| v.as_str()), Some("f/every_hour"));
        assert_eq!(args.get("path").and_then(|v| v.as_str()), Some("f/report"));
    }
}

#[test]
fn handler_args_put_the_paths_over_keys_of_the_failure() {
    let failure = Value::Object(object_of(&[
        ("path", Value::from("from the job")),
        ("schedule_path", Value::from(1)),
        ("kept", Value::from(true)),
    ]));
    let args = handler_for(Some(failure)).args();
    assert_eq!(args.len(), 3);
    assert_eq!(args.get("path"), Some(&Value::from("f/report")));
    assert_eq!(args.get("schedule_path"), Some(&Value::from("f/every_hour")));
    assert_eq!(args.get("kept"), Some(&Value::from(true)));
}

#[test]
fn handler_args_leave_the_failure_as_it_is() {
    let failure = Value::Object(object_of(&[("error", Value::from("boom"))]));
    let handler = handler_for(Some(failure.clone()));
    let _ = handler.args();
    assert_eq!(handler.failure, Some(failure));
}

#[test]
fn handler_runs_in_the_scope_of_who_edited_the_schedule() {
    assert_eq!(handler_for(None).permissioned_as(), "u/alice");
    assert_eq!(username_to_permissioned_as("bob"), "u/bob");
    assert_eq!(username_to_permissioned_as(""), "u/");
}

#[test]
fn error_result_holds_the_error_and_nothing_else() {
    let result = error_result(Value::from("boom"));
    assert_eq!(result, Value::Object(object_of(&[("error", Value::from("boom"))])));
    let nested = error_result(result.clone());
    assert_eq!(nested.as_object().map(|object| object.len()), Some(1));
    assert_eq!(nested.get("error"), Some(&result));
}

#[test]
fn error_messages_say_what_failed() {
    assert_eq!(Error::Persistence("connection lost".to_string()).message(), "connection lost");
    assert_eq!(
        Error::AddCompleted { job: 42, cause: "disk full".to_string() }.message(),
        "Could not add completed job 00000000-0000-0000-0000-00000000002a: disk full"
    );
    assert_eq!(
        Error::AddCompleted {
            job: 0x0123_4567_89ab_cdef_0123_4567_89ab_cdef,
            cause: String::new()
        }
        .message(),
        "Could not add completed job 01234567-89ab-cdef-0123-456789abcdef: "
    );
    assert_eq!(
        Error::EscalationDispatch("not found".to_string()).message(),
        "Could not trigger error handler: not found"
    );
    assert_eq!(Error::SchedulePush("no next date".to_string()).message(), "no next date");
    assert_eq!(Error::UnexpectedReply.message(), "Unexpected reply");
}

#[test]
fn error_copies_are_equal() {
    for error in [
        Error::Persistence("a".to_string()),
        Error::AddCompleted { job: 1, cause: "b".to_string() },
        Error::EscalationDispatch("c".to_string()),
        Error::SchedulePush("d".to_string()),
        Error::UnexpectedReply,
    ] {
        assert_eq!(error.clone(), error);
    }
}
