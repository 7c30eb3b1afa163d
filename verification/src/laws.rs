//! What holds of every completion and every coordination.
use crate::completion::{failure_of, recorded_steps, Completion, Stage};
use crate::coordinator::ScheduleCoordinator;
use crate::error::Error;
use crate::flow_status::{leaf_jobs, FlowStatus};
use crate::job::{CompletedJob, HandlerJob, QueuedJob};
use crate::jobs::{completed, completion_row, coordinated, verdict};
use crate::protocol::{Action, Event, Run, Step};
use crate::schedule::Schedule;
use crate::store::{
    any_counts, completed_index, counts, distinct_completed, distinct_schedules, duration_sum,
    elapsed, has_completed, has_pending, has_schedule, is_at, is_disabled, is_merged,
    is_upserted, resolved, schedule_at, schedule_index, summed_durations, Services, StoreView,
};
use serde_json::Value;
use vstd::prelude::*;

verus! {

/// Once the terminal store has taken a completed job, it holds that job, at the place
/// where it held it before or else at its end.
pub proof fn lemma_upserted_is_held(
    before: Seq<CompletedJob>,
    row: CompletedJob,
    now: i64,
    after: Seq<CompletedJob>,
)
    requires
        distinct_completed(before),
        is_upserted(before, row, now, after),
    ensures
        distinct_completed(after),
        has_completed(after, row.job.id),
        has_completed(before, row.job.id) ==> completed_index(after, row.job.id) == completed_index(
            before,
            row.job.id,
        ),
        !has_completed(before, row.job.id) ==> completed_index(after, row.job.id) == before.len(),
{
    let job = row.job.id;
    if has_completed(before, job) {
        let at = completed_index(before, job);
        assert(after[at].job.id == job);
        assert forall|i: int, j: int| 0 <= i < j < after.len() implies (#[trigger] after[i]).job.id
            != (#[trigger] after[j]).job.id by {
            assert(before[i].job.id != before[j].job.id);
        }
        let found = completed_index(after, job);
        assert(after[found].job.id == job);
        if found != at {
            assert(after[found] == before[found]);
            assert(before[found].job.id != before[at].job.id);
        }
    } else {
        let at = before.len() as int;
        assert(after[at].job.id == job);
        assert forall|i: int, j: int| 0 <= i < j < after.len() implies (#[trigger] after[i]).job.id
            != (#[trigger] after[j]).job.id by {
            if j < at {
                assert(before[i].job.id != before[j].job.id);
            } else {
                assert(before[i].job.id != job);
            }
        }
        let found = completed_index(after, job);
        assert(after[found].job.id == job);
        if found != at {
            assert(before[found].job.id == job);
        }
    }
}

/// The logs that the terminal store holds for a job: none where it does not hold the job.
pub open spec fn logs_of(rows: Seq<CompletedJob>, job: u128) -> Seq<char> {
    if has_completed(rows, job) {
        rows[completed_index(rows, job)].logs@
    } else {
        Seq::empty()
    }
}

/// Completing a job twice is safe. Where a job is completed as failed and then once more
/// as succeeded, and both completions go through, the terminal store holds the job exactly
/// once, as succeeded and with the result of the second completion; its logs are those
/// it held before, then those of the first completion, then those of the second.
pub proof fn lemma_completion_is_idempotent(
    before: StoreView,
    between: StoreView,
    after: StoreView,
    job: QueuedJob,
    first_status: Option<FlowStatus>,
    first_skipped: bool,
    first_result: Value,
    first_logs: String,
    first_services: Services,
    second_status: Option<FlowStatus>,
    second_skipped: bool,
    second_result: Value,
    second_logs: String,
    second_services: Services,
)
    requires
        before.wf(),
        completed(
            before,
            job,
            first_status,
            false,
            first_skipped,
            first_result,
            first_logs,
            first_services,
            between,
            Ok(job.id),
        ),
        completed(
            between,
            job,
            second_status,
            true,
            second_skipped,
            second_result,
            second_logs,
            second_services,
            after,
            Ok(job.id),
        ),
    ensures
        has_completed(after.live.completed, job.id),
        forall|i: int|
            0 <= i < after.live.completed.len() && (#[trigger] after.live.completed[i]).job.id
                == job.id ==> i == completed_index(after.live.completed, job.id),
        after.live.completed[completed_index(after.live.completed, job.id)].success,
        after.live.completed[completed_index(after.live.completed, job.id)].result == second_result,
        after.live.completed[completed_index(after.live.completed, job.id)].logs@ == logs_of(
            before.live.completed,
            job.id,
        ) + first_logs@ + second_logs@,
{
    let first = completion_row(
        before,
        job,
        first_status,
        false,
        first_skipped,
        first_result,
        first_logs,
    );
    let second = completion_row(
        between,
        job,
        second_status,
        true,
        second_skipped,
        second_result,
        second_logs,
    );
    lemma_upserted_is_held(before.live.completed, first, before.now, between.live.completed);
    lemma_upserted_is_held(between.live.completed, second, between.now, after.live.completed);
    let at = completed_index(after.live.completed, job.id);
    assert(after.live.completed[at].job.id == job.id);
    assert(is_merged(between.live.completed[at], second, after.live.completed[at]));
    assert(logs_of(before.live.completed, job.id) + first_logs@ + second_logs@ =~= (logs_of(
        before.live.completed,
        job.id,
    ) + first_logs@) + second_logs@);
    if !has_completed(before.live.completed, job.id) {
        assert(Seq::<char>::empty() + first_logs@ =~= first_logs@);
    }
    assert forall|i: int|
        0 <= i < after.live.completed.len() && (#[trigger] after.live.completed[i]).job.id
            == job.id implies i == at by {
        if i < at {
            assert(after.live.completed[i].job.id != after.live.completed[at].job.id);
        } else if at < i {
            assert(after.live.completed[at].job.id != after.live.completed[i].job.id);
        }
    }
}

/// The durations of completed jobs add up: over two runs of rows, the sum is the sum of
/// the two sums.
pub proof fn lemma_durations_add_up(
    front: Seq<CompletedJob>,
    back: Seq<CompletedJob>,
    jobs: Seq<u128>,
)
    ensures
        duration_sum(front + back, jobs) == duration_sum(front, jobs) + duration_sum(back, jobs),
    decreases back.len(),
{
    if back.len() == 0 {
        assert(front + back =~= front);
    } else {
        lemma_durations_add_up(front, back.drop_last(), jobs);
        assert((front + back).drop_last() =~= front + back.drop_last());
        assert((front + back).last() == back.last());
    }
}

/// Neither the order of the jobs nor a job named twice changes a sum of durations: two
/// lists of the same jobs give the same sum.
pub proof fn lemma_sum_goes_by_the_set_of_jobs(
    rows: Seq<CompletedJob>,
    jobs: Seq<u128>,
    others: Seq<u128>,
)
    requires
        forall|job: u128| jobs.contains(job) == others.contains(job),
    ensures
        duration_sum(rows, jobs) == duration_sum(rows, others),
        summed_durations(rows, jobs) == summed_durations(rows, others),
    decreases rows.len(),
{
    if rows.len() > 0 {
        lemma_sum_goes_by_the_set_of_jobs(rows.drop_last(), jobs, others);
    }
    if any_counts(rows, jobs) {
        let i = choose|i: int| 0 <= i < rows.len() && counts(#[trigger] rows[i], jobs);
        assert(counts(rows[i], others));
    }
    if any_counts(rows, others) {
        let i = choose|i: int| 0 <= i < rows.len() && counts(#[trigger] rows[i], others);
        assert(counts(rows[i], jobs));
    }
}

/// A flow takes as long as its steps. Where a flow whose status could be read is completed
/// for the first time, it is kept with the sum of the durations of the completed jobs that
/// count for its steps, provided one of them has a duration and the sum is a duration.
pub proof fn lemma_flow_duration_is_that_of_its_steps(
    before: StoreView,
    job: QueuedJob,
    status: FlowStatus,
    success: bool,
    skipped: bool,
    result: Value,
    logs: String,
    services: Services,
    after: StoreView,
    outcome: Result<u128, Error>,
)
    requires
        before.wf(),
        job.job_kind.is_flow(),
        !has_completed(before.live.completed, job.id),
        summed_durations(before.live.completed, leaf_jobs(recorded_steps(status))) is Some,
        completed(before, job, Some(status), success, skipped, result, logs, services, after, outcome),
    ensures
        outcome == Ok::<u128, Error>(job.id),
        has_completed(after.live.completed, job.id),
        after.live.completed[completed_index(after.live.completed, job.id)].duration_ms == Some(
            duration_sum(before.live.completed, leaf_jobs(recorded_steps(status))) as i64,
        ),
{
    let row = completion_row(before, job, Some(status), success, skipped, result, logs);
    lemma_upserted_is_held(before.live.completed, row, before.now, after.live.completed);
}

/// A flow whose status cannot be read is completed all the same: the completion goes
/// through, and where the flow is completed for the first time it is kept with the time
/// that it took to run.
pub proof fn lemma_unread_flow_is_completed(
    before: StoreView,
    job: QueuedJob,
    success: bool,
    skipped: bool,
    result: Value,
    logs: String,
    services: Services,
    after: StoreView,
    outcome: Result<u128, Error>,
)
    requires
        before.wf(),
        job.job_kind.is_flow(),
        completed(before, job, None, success, skipped, result, logs, services, after, outcome),
    ensures
        outcome == Ok::<u128, Error>(job.id),
        completion_row(before, job, None, success, skipped, result, logs).duration_ms is None,
        has_completed(after.live.completed, job.id),
        !has_completed(before.live.completed, job.id) ==> after.live.completed[completed_index(
            after.live.completed,
            job.id,
        )].duration_ms == elapsed(before.now, job.started_at),
{
    let row = completion_row(before, job, None, success, skipped, result, logs);
    lemma_upserted_is_held(before.live.completed, row, before.now, after.live.completed);
}

/// The guard of a schedule. Where the schedule is disabled, or triggers another script
/// than the one that the job ran, the coordination does nothing and ends well: the stores
/// are as they were.
pub proof fn lemma_guarded_schedule_is_left_alone(
    before: StoreView,
    schedule: Schedule,
    schedule_path: String,
    script_path: String,
    workspace_id: String,
    success: bool,
    failure: Option<Value>,
    services: Services,
    after: StoreView,
)
    requires
        before.staged is Some,
        !schedule.enabled || schedule.script_path@ != script_path@,
        coordinated(
            before,
            verdict(
                Some(schedule),
                schedule_path,
                script_path,
                workspace_id,
                success,
                failure,
                services,
            ),
            after,
        ),
    ensures
        verdict(
            Some(schedule),
            schedule_path,
            script_path,
            workspace_id,
            success,
            failure,
            services,
        ).outcome() == Ok::<(), Error>(()),
        after == before,
{
    assert(after.staged->0 =~= before.staged->0);
}

/// The guard of a schedule, as the coordination sees it: once it has read a schedule that
/// is disabled or triggers another script, it asks for nothing more and ends well.
pub proof fn lemma_guarded_schedule_asks_nothing(
    schedule: Schedule,
    schedule_path: String,
    script_path: String,
    workspace_id: String,
    success: bool,
    failure: Option<Value>,
)
    requires
        !schedule.enabled || schedule.script_path@ != script_path@,
    ensures
        (ScheduleCoordinator::Loading {
            workspace_id,
            schedule_path,
            script_path,
            success,
            failure,
        }).next(Event::Schedule(Some(schedule))) == Step::<ScheduleCoordinator, ()>::Finish(Ok(())),
{
}

/// A failure is escalated exactly once. Where a job of a schedule with a handler fails,
/// the handler is found and the queue takes it, the coordination enqueues one handler and
/// no more: for the workers that were named, with the result of the failed job and the
/// paths of the schedule and of the script, in the name of who last edited the schedule.
pub proof fn lemma_failure_is_escalated_once(
    before: StoreView,
    schedule: Schedule,
    schedule_path: String,
    script_path: String,
    workspace_id: String,
    failure: Option<Value>,
    services: Services,
    after: StoreView,
)
    requires
        before.staged is Some,
        schedule.fires_for(script_path@),
        schedule.on_failure is Some,
        resolved(services.runnables@, workspace_id@, schedule.on_failure->0@) is Some,
        services.enqueue is Ok,
        coordinated(
            before,
            verdict(
                Some(schedule),
                schedule_path,
                script_path,
                workspace_id,
                false,
                failure,
                services,
            ),
            after,
        ),
    ensures
        after.staged is Some,
        after.staged->0.handlers == before.staged->0.handlers.push(
            HandlerJob {
                workspace_id,
                payload: resolved(
                    services.runnables@,
                    workspace_id@,
                    schedule.on_failure->0@,
                )->0.payload,
                tag: resolved(services.runnables@, workspace_id@, schedule.on_failure->0@)->0.tag,
                failure,
                schedule_path,
                script_path,
                created_by: schedule.edited_by,
                email: schedule.email,
            },
        ),
{
}

/// Once a schedule is disabled, it is there, disabled, and with the text for its error.
pub proof fn lemma_disabled_is_held(
    before: Seq<Schedule>,
    workspace_id: Seq<char>,
    path: Seq<char>,
    text: Seq<char>,
    after: Seq<Schedule>,
)
    requires
        distinct_schedules(before),
        has_schedule(before, workspace_id, path),
        is_disabled(before, workspace_id, path, text, after),
    ensures
        distinct_schedules(after),
        schedule_at(after, workspace_id, path) matches Some(disabled) && !disabled.enabled && (
        disabled.error matches Some(error) && error@ == text),
{
    let at = schedule_index(before, workspace_id, path);
    assert(is_at(after[at], workspace_id, path));
    assert forall|i: int, j: int| 0 <= i < j < after.len() implies !is_at(
        #[trigger] after[i],
        (#[trigger] after[j]).workspace_id@,
        after[j].path@,
    ) by {
        assert(!is_at(before[i], before[j].workspace_id@, before[j].path@));
    }
    let found = schedule_index(after, workspace_id, path);
    assert(is_at(after[found], workspace_id, path));
    if found < at {
        assert(!is_at(after[found], after[at].workspace_id@, after[at].path@));
    } else if at < found {
        assert(!is_at(after[at], after[found].workspace_id@, after[found].path@));
    }
}

/// A failed push, as the coordination sees it: it asks for the schedule to be disabled
/// because of the push, and once that is done it ends with the failure of the push.
pub proof fn lemma_failed_push_disables_and_fails(workspace_id: String, path: String, cause: String)
    ensures
        (ScheduleCoordinator::Pushing { workspace_id, path }).next(Event::Failed(cause))
            == Step::<ScheduleCoordinator, ()>::Ask(
            ScheduleCoordinator::Disabling { cause: Error::SchedulePush(cause) },
            Action::DisableSchedule { workspace_id, path, cause: Error::SchedulePush(cause) },
        ),
        (ScheduleCoordinator::Disabling { cause: Error::SchedulePush(cause) }).next(Event::Done)
            == Step::<ScheduleCoordinator, ()>::Finish(Err(Error::SchedulePush(cause))),
{
}

/// A completion commits only what its coordination let through. While the coordination
/// goes on, the completion asks for what the coordination asks; it asks for the commit
/// when the coordination has ended well, and ends with the error, asking for nothing
/// more, when the coordination has failed.
pub proof fn lemma_commit_follows_the_coordination(
    run: Completion,
    coordinator: ScheduleCoordinator,
    stored: Option<i64>,
    reply: Event,
)
    requires
        run.stage == (Stage::Coordinating { stored, coordinator }),
    ensures
        match coordinator.next(reply) {
            Step::Ask(_, asked) => run.next(reply) matches Step::Ask(_, action) && action == asked,
            Step::Finish(Ok(_)) => run.next(reply) matches Step::Ask(_, action) && action
                == Action::Commit,
            Step::Finish(Err(cause)) => run.next(reply) == Step::<Completion, u128>::Finish(
                Err(cause),
            ),
        },
{
}

/// A completion that fails writes nothing but the error of a schedule: what is
/// committed, the count of executions and the usage are as before, so that the job is
/// still pending and can be completed again. Only the completion of a job that drives a
/// schedule fails in the stores in memory.
pub proof fn lemma_failed_completion_writes_nothing(
    before: StoreView,
    job: QueuedJob,
    flow_status: Option<FlowStatus>,
    success: bool,
    skipped: bool,
    result: Value,
    logs: String,
    services: Services,
    after: StoreView,
    outcome: Result<u128, Error>,
)
    requires
        completed(before, job, flow_status, success, skipped, result, logs, services, after, outcome),
        outcome is Err,
    ensures
        after == (StoreView { schedules: after.schedules, ..before }),
        job.drives_schedule(),
{
}

/// A schedule whose next occurrence cannot be pushed stops the completion. Where the job
/// drives a schedule that may fire again and the push of the next occurrence fails, the
/// completion fails; the schedule is then disabled and has an error, while nothing else has
/// changed: the job is still pending, and no completed job is written.
pub proof fn lemma_failed_push_aborts_the_completion(
    before: StoreView,
    job: QueuedJob,
    flow_status: Option<FlowStatus>,
    success: bool,
    skipped: bool,
    result: Value,
    logs: String,
    services: Services,
    after: StoreView,
    outcome: Result<u128, Error>,
)
    requires
        before.wf(),
        job.drives_schedule(),
        schedule_at(before.schedules, job.workspace_id@, job.schedule_path->0@) matches Some(
            schedule,
        ) && schedule.fires_for(job.script_path->0@),
        services.push is Err,
        completed(before, job, flow_status, success, skipped, result, logs, services, after, outcome),
    ensures
        outcome is Err,
        after.live == before.live,
        after.staged == before.staged,
        has_pending(before.live.queue, job.id) ==> has_pending(after.live.queue, job.id),
        schedule_at(after.schedules, job.workspace_id@, job.schedule_path->0@) matches Some(
            disabled,
        ) && !disabled.enabled && disabled.error is Some,
{
    let workspace_id = job.workspace_id@;
    let path = job.schedule_path->0@;
    let schedule = schedule_at(before.schedules, workspace_id, path)->0;
    assert(is_at(schedule, workspace_id, path));
    let reached = verdict(
        Some(schedule),
        job.schedule_path->0,
        job.script_path->0,
        job.workspace_id,
        success,
        failure_of(success, result),
        services,
    );
    assert(reached is Disabled);
    lemma_disabled_is_held(
        before.schedules,
        workspace_id,
        path,
        reached->Disabled_cause.text(),
        after.schedules,
    );
}

} // verus!
