use job_completion::flow_status::{flatten_jobs, FlowStatusModule};

fn step_id(name: &str) -> String {
    name.to_string()
}

#[test]
fn flatten_takes_nested_jobs_of_a_finished_step() {
    let modules = vec![
        FlowStatusModule::Success { id: step_id("a"), job: 1, flow_jobs: None },
        FlowStatusModule::Success { id: step_id("b"), job: 2, flow_jobs: Some(vec![3, 4]) },
    ];
    assert_eq!(flatten_jobs(modules), vec![1, 3, 4]);
}

#[test]
fn flatten_counts_failed_steps_like_succeeded_ones() {
    let modules = vec![
        FlowStatusModule::Failure { id: step_id("a"), job: 7, flow_jobs: None },
        FlowStatusModule::Failure { id: step_id("b"), job: 8, flow_jobs: Some(vec![9]) },
    ];
    assert_eq!(flatten_jobs(modules), vec![7, 9]);
}

#[test]
fn flatten_skips_steps_that_have_not_ended() {
    let modules = vec![
        FlowStatusModule::WaitingForPriorSteps { id: step_id("a") },
        FlowStatusModule::WaitingForEvents { id: step_id("b"), job: 1 },
        FlowStatusModule::WaitingForExecutor { id: step_id("c"), job: 2 },
        FlowStatusModule::InProgress { id: step_id("d"), job: 3, flow_jobs: Some(vec![4, 5]) },
        FlowStatusModule::Success { id: step_id("e"), job: 6, flow_jobs: None },
    ];
    assert_eq!(flatten_jobs(modules), vec![6]);
}

#[test]
fn flatten_of_no_step_is_empty() {
    assert_eq!(flatten_jobs(Vec::new()), Vec::<u128>::new());
}

#[test]
fn flatten_of_a_step_with_no_nested_job_is_empty() {
    let modules =
        vec![FlowStatusModule::Success { id: step_id("a"), job: 1, flow_jobs: Some(Vec::new()) }];
    assert_eq!(flatten_jobs(modules), Vec::<u128>::new());
}

#[test]
fn flatten_keeps_the_order_of_the_steps_and_repeated_jobs() {
    let modules = vec![
        FlowStatusModule::Success { id: step_id("a"), job: 5, flow_jobs: Some(vec![9, 8]) },
        FlowStatusModule::Failure { id: step_id("b"), job: 9, flow_jobs: None },
        FlowStatusModule::Success { id: step_id("c"), job: 1, flow_jobs: None },
    ];
    assert_eq!(flatten_jobs(modules), vec![9, 8, 9, 1]);
}
