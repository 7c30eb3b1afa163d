//! Completions, coordinations and escalations run to their end against the stores in memory.
use crate::completion::{children, failure_of, usage_units, Completion};
use crate::coordinator::{rearmed, ScheduleCoordinator};
use crate::error::Error;
use crate::escalation::Escalation;
use crate::flow_status::FlowStatus;
use crate::job::{CompletedJob, HandlerJob, QueuedJob};
use crate::json::{empty_object, fields, no_entries, object_document, set_entry};
use crate::protocol::{Action, Run, Step};
use crate::schedule::Schedule;
use crate::store::{
    counted_up, is_billed, is_disabled, is_upserted, mem_peak_of, resolved, schedule_at,
    stored_duration, summed_durations, without_pending, Services, Store, StoreView, TablesView,
    Usage,
};
use serde_json::Value;
use vstd::prelude::*;
use vstd::string::*;

verus! {

/// Whether `outcome` is the failure of a store with `text` for its own words.
pub open spec fn is_refusal<T>(outcome: Result<T, Error>, text: Seq<char>) -> bool {
    outcome matches Err(Error::Persistence(cause)) && cause@ == text
}

fn refusal<T>(text: &str) -> (outcome: Result<T, Error>)
    ensures
        is_refusal(outcome, text@),
{
    Err(Error::Persistence(String::from_str(text)))
}

/// The stores with one more handler enqueued in the open transaction.
pub open spec fn with_handler(stores: StoreView, handler: HandlerJob) -> StoreView {
    StoreView {
        staged: Some(
            TablesView { handlers: stores.staged->0.handlers.push(handler), ..stores.staged->0 },
        ),
        ..stores
    }
}

/// The stores with the next occurrence of one more schedule pushed in the open transaction.
pub open spec fn with_occurrence(stores: StoreView, schedule: Schedule) -> StoreView {
    StoreView {
        staged: Some(
            TablesView {
                occurrences: stores.staged->0.occurrences.push(schedule),
                ..stores.staged->0
            },
        ),
        ..stores
    }
}

/// What comes of an escalation: the handler that is enqueued and the job that the queue
/// makes of it, or the error where the handler is not found or not taken.
pub open spec fn escalation_outcome(
    schedule_path: String,
    script_path: String,
    workspace_id: String,
    on_failure_path: String,
    failure: Option<Value>,
    created_by: String,
    email: String,
    services: Services,
) -> Result<(HandlerJob, u128), Error> {
    match resolved(services.runnables@, workspace_id@, on_failure_path@) {
        None => Err(Error::EscalationDispatch(services.not_found)),
        Some(found) => match services.enqueue {
            Err(cause) => Err(Error::EscalationDispatch(cause)),
            Ok(job) => Ok(
                (
                    HandlerJob {
                        workspace_id,
                        payload: found.payload,
                        tag: found.tag,
                        failure,
                        schedule_path,
                        script_path,
                        created_by,
                        email,
                    },
                    job,
                ),
            ),
        },
    }
}

/// One exchange of a run with the stores: they do what the run asks for, and the run goes
/// on with their reply. A run that has ended stays as it is.
fn serve<M: Run>(db: &mut Store, step: Step<M, M::Outcome>, services: &Services) -> (next: Step<
    M,
    M::Outcome,
>)
    requires
        old(db).wf(),
        step matches Step::Ask(_, action) ==> old(db)@.accepts(action),
    ensures
        final(db).wf(),
        match step {
            Step::Ask(run, action) => {
                &&& old(db)@.becomes(action, *services, final(db)@)
                &&& next == run.next(old(db)@.reply_to(action, *services))
            },
            Step::Finish(_) => next == step && final(db)@ == old(db)@,
        },
{
    match step {
        Step::Ask(run, action) => {
            let reply = db.perform(action, services);
            run.step(reply)
        },
        Step::Finish(outcome) => Step::Finish(outcome),
    }
}

/// Escalates the failure of a job that ran `script_path` for the schedule at
/// `schedule_path`: enqueues, in the open transaction, the handler at `on_failure_path`,
/// in the name of `username`.
///
/// Exactly one handler is enqueued where the handler is found and the queue takes it, and
/// the job that the queue made of it is returned. Else nothing is written, and the error
/// says what failed. Without an open transaction the stores refuse.
pub fn handle_on_failure(
    db: &mut Store,
    schedule_path: &String,
    script_path: &String,
    w_id: &String,
    on_failure_path: &String,
    result: &Option<Value>,
    username: &String,
    email: &String,
    services: &Services,
) -> (outcome: Result<u128, Error>)
    requires
        old(db).wf(),
    ensures
        final(db).wf(),
        old(db)@.staged is None ==> final(db)@ == old(db)@ && is_refusal(
            outcome,
            "no transaction is open"@,
        ),
        old(db)@.staged is Some ==> match escalation_outcome(
            *schedule_path,
            *script_path,
            *w_id,
            *on_failure_path,
            *result,
            *username,
            *email,
            *services,
        ) {
            Ok(enqueued) => outcome == Ok::<u128, Error>(enqueued.1) && final(db)@ == with_handler(
                old(db)@,
                enqueued.0,
            ),
            Err(cause) => outcome == Err::<u128, Error>(cause) && final(db)@ == old(db)@,
        },
{
    if !db.in_transaction() {
        return refusal("no transaction is open");
    }
    let step = Escalation::start(
        schedule_path,
        script_path,
        w_id,
        on_failure_path,
        result,
        username,
        email,
    );
    let step = serve(db, step, services);
    let step = serve(db, step, services);
    match step {
        Step::Finish(outcome) => outcome,
        Step::Ask(_, _) => Err(Error::UnexpectedReply),
    }
}

/// What a coordination comes to.
pub enum Verdict {
    /// Nothing is done: there is no such schedule, or it is disabled, or it triggers
    /// another script.
    Idle,
    /// The next occurrence of `schedule` is pushed, after `handler` is enqueued where a
    /// failure was escalated.
    Rearmed { handler: Option<HandlerJob>, schedule: Schedule },
    /// The schedule at `path` is disabled because of `cause`; `handler` was enqueued before
    /// where only the push failed.
    Disabled { handler: Option<HandlerJob>, workspace_id: String, path: String, cause: Error },
}

/// What the push of the next occurrence comes to, after `handler` is enqueued if there is one.
pub open spec fn push_verdict(
    schedule: Schedule,
    workspace_id: String,
    handler: Option<HandlerJob>,
    services: Services,
) -> Verdict {
    match services.push {
        Ok(_) => Verdict::Rearmed { handler, schedule: rearmed(schedule, workspace_id) },
        Err(cause) => Verdict::Disabled {
            handler,
            workspace_id: schedule.workspace_id,
            path: schedule.path,
            cause: Error::SchedulePush(cause),
        },
    }
}

/// What the coordination of the schedule `found` at `schedule_path` comes to, after a job
/// that ran `script_path` for it.
pub open spec fn verdict(
    found: Option<Schedule>,
    schedule_path: String,
    script_path: String,
    workspace_id: String,
    success: bool,
    failure: Option<Value>,
    services: Services,
) -> Verdict {
    match found {
        None => Verdict::Idle,
        Some(schedule) => if !schedule.fires_for(script_path@) {
            Verdict::Idle
        } else if !success && schedule.on_failure is Some {
            match escalation_outcome(
                schedule_path,
                script_path,
                workspace_id,
                schedule.on_failure->0,
                failure,
                schedule.edited_by,
                schedule.email,
                services,
            ) {
                Ok(enqueued) => push_verdict(schedule, workspace_id, Some(enqueued.0), services),
                Err(cause) => Verdict::Disabled {
                    handler: None,
                    workspace_id: schedule.workspace_id,
                    path: schedule.path,
                    cause,
                },
            }
        } else {
            push_verdict(schedule, workspace_id, None, services)
        },
    }
}

impl Verdict {
    /// How the coordination ends: with the cause where it disabled the schedule.
    pub open spec fn outcome(self) -> Result<(), Error> {
        match self {
            Verdict::Disabled { cause, .. } => Err(cause),
            _ => Ok(()),
        }
    }

    /// The handler that the coordination enqueued, if it enqueued one.
    pub open spec fn handler(self) -> Option<HandlerJob> {
        match self {
            Verdict::Idle => None,
            Verdict::Rearmed { handler, .. } => handler,
            Verdict::Disabled { handler, .. } => handler,
        }
    }
}

/// The handlers with one more, if there is one more.
pub open spec fn and_handler(handlers: Seq<HandlerJob>, handler: Option<HandlerJob>) -> Seq<
    HandlerJob,
> {
    match handler {
        Some(enqueued) => handlers.push(enqueued),
        None => handlers,
    }
}

/// The occurrences with that of the schedule that a coordination pushed, if it pushed one.
pub open spec fn and_occurrence(occurrences: Seq<Schedule>, verdict: Verdict) -> Seq<Schedule> {
    match verdict {
        Verdict::Rearmed { schedule, .. } => occurrences.push(schedule),
        _ => occurrences,
    }
}

/// Whether `after` are the schedules `before` once a coordination has come to `verdict`.
pub open spec fn schedules_after(before: Seq<Schedule>, verdict: Verdict, after: Seq<Schedule>) -> bool {
    match verdict {
        Verdict::Disabled { workspace_id, path, cause, .. } => is_disabled(
            before,
            workspace_id@,
            path@,
            cause.text(),
            after,
        ),
        _ => after == before,
    }
}

/// Whether `after` are the stores `before` once a coordination has come to `verdict` in
/// the open transaction.
pub open spec fn coordinated(before: StoreView, verdict: Verdict, after: StoreView) -> bool {
    &&& schedules_after(before.schedules, verdict, after.schedules)
    &&& after == StoreView {
        staged: Some(
            TablesView {
                handlers: and_handler(before.staged->0.handlers, verdict.handler()),
                occurrences: and_occurrence(before.staged->0.occurrences, verdict),
                ..before.staged->0
            },
        ),
        schedules: after.schedules,
        ..before
    }
}

/// Coordinates, in the open transaction, the schedule at `schedule_path` after a job that
/// ran `script_path` for it has ended; `result` is the job's result where it failed.
///
/// Nothing is done where there is no such schedule, where it is disabled and where it
/// triggers another script. Else a failure is escalated first where the schedule has a
/// handler, and the next occurrence is pushed. Where the escalation or the push fails, the
/// schedule is disabled for good, with the failure for its error, and the failure is
/// returned. Without an open transaction the stores refuse.
pub fn handle_maybe_scheduled_job(
    db: &mut Store,
    schedule_path: &String,
    script_path: &String,
    w_id: &String,
    success: bool,
    result: &Option<Value>,
    services: &Services,
) -> (outcome: Result<(), Error>)
    requires
        old(db).wf(),
    ensures
        final(db).wf(),
        old(db)@.staged is None ==> final(db)@ == old(db)@ && is_refusal(
            outcome,
            "no transaction is open"@,
        ),
        old(db)@.staged is Some ==> outcome == verdict(
            schedule_at(old(db)@.schedules, w_id@, schedule_path@),
            *schedule_path,
            *script_path,
            *w_id,
            success,
            *result,
            *services,
        ).outcome(),
        old(db)@.staged is Some ==> coordinated(
            old(db)@,
            verdict(
                schedule_at(old(db)@.schedules, w_id@, schedule_path@),
                *schedule_path,
                *script_path,
                *w_id,
                success,
                *result,
                *services,
            ),
            final(db)@,
        ),
{
    if !db.in_transaction() {
        return refusal("no transaction is open");
    }
    let step = ScheduleCoordinator::start(schedule_path, script_path, w_id, success, result);
    let step = serve(db, step, services);
    let step = serve(db, step, services);
    let step = serve(db, step, services);
    let step = serve(db, step, services);
    let step = serve(db, step, services);
    match step {
        Step::Finish(outcome) => outcome,
        Step::Ask(_, _) => Err(Error::UnexpectedReply),
    }
}

/// The completed job that a completion writes: the job and its outcome, with the duration
/// of its steps where it is a flow whose status could be read, and with the memory peak
/// that the pending store tracks for it.
pub open spec fn completion_row(
    stores: StoreView,
    job: QueuedJob,
    flow_status: Option<FlowStatus>,
    success: bool,
    skipped: bool,
    result: Value,
    logs: String,
) -> CompletedJob {
    CompletedJob {
        job,
        success,
        is_skipped: skipped,
        result,
        logs,
        duration_ms: match children(job.job_kind, flow_status) {
            Some(jobs) => summed_durations(stores.live.completed, jobs),
            None => None,
        },
        mem_peak: mem_peak_of(stores.live.queue, job.id),
    }
}

/// What the coordination within a completion comes to: nothing where the job drives no
/// schedule.
pub open spec fn completion_verdict(
    stores: StoreView,
    job: QueuedJob,
    success: bool,
    failure: Option<Value>,
    services: Services,
) -> Verdict {
    if job.drives_schedule() {
        verdict(
            schedule_at(stores.schedules, job.workspace_id@, job.schedule_path->0@),
            job.schedule_path->0,
            job.script_path->0,
            job.workspace_id,
            success,
            failure,
            services,
        )
    } else {
        Verdict::Idle
    }
}

/// The usage after a completion: one more record where the job is no flow and ran for more
/// than a second, for the month of the stores, on the account of the workspace where that
/// is billed, else on that of who submitted the job.
pub open spec fn usage_after(
    stores: StoreView,
    job: QueuedJob,
    stored: Option<i64>,
) -> Seq<Usage> {
    match usage_units(job.job_kind, stored) {
        Some(units) => stores.usage.push(
            Usage {
                account: if is_billed(stores.billed, job.workspace_id@) {
                    job.workspace_id
                } else {
                    job.email
                },
                is_workspace: is_billed(stores.billed, job.workspace_id@),
                month: stores.month,
                units,
            },
        ),
        None => stores.usage,
    }
}

/// Whether `after` are the stores `before` once `job` has been completed with `outcome`.
///
/// Where the coordination of the job's schedule disabled the schedule, the completion
/// fails with the cause, and but for that schedule the stores are as before: the job is
/// still pending and no completed job is written. Else the completion ends with the job,
/// which has moved from the pending store to the terminal store, together with what the
/// coordination wrote.
pub open spec fn completed(
    before: StoreView,
    job: QueuedJob,
    flow_status: Option<FlowStatus>,
    success: bool,
    skipped: bool,
    result: Value,
    logs: String,
    services: Services,
    after: StoreView,
    outcome: Result<u128, Error>,
) -> bool {
    let row = completion_row(before, job, flow_status, success, skipped, result, logs);
    let verdict = completion_verdict(before, job, success, failure_of(success, result), services);
    &&& schedules_after(before.schedules, verdict, after.schedules)
    &&& match verdict {
        Verdict::Disabled { cause, .. } => {
            &&& outcome == Err::<u128, Error>(cause)
            &&& after == StoreView { schedules: after.schedules, ..before }
        },
        _ => {
            &&& outcome == Ok::<u128, Error>(job.id)
            &&& is_upserted(before.live.completed, row, before.now, after.live.completed)
            &&& after == StoreView {
                live: TablesView {
                    queue: without_pending(before.live.queue, job.workspace_id@, job.id),
                    completed: after.live.completed,
                    handlers: and_handler(before.live.handlers, verdict.handler()),
                    occurrences: and_occurrence(before.live.occurrences, verdict),
                    acknowledged: if before.has_message_queue {
                        before.live.acknowledged.push(job.id)
                    } else {
                        before.live.acknowledged
                    },
                },
                executions: counted_up(before.executions),
                usage: usage_after(
                    before,
                    job,
                    stored_duration(before.live.completed, row, before.now),
                ),
                ..before
            }
        },
    }
}

/// The exchange in which a completion learns the duration of a flow's steps, where it asks
/// for that.
fn serve_durations(db: &mut Store, step: Step<Completion, u128>, services: &Services) -> (next:
    Step<Completion, u128>)
    requires
        old(db).wf(),
    ensures
        final(db).wf(),
        final(db)@ == old(db)@,
        next == match step {
            Step::Ask(run, Action::SumDurations { jobs }) => run.next(
                old(db)@.reply_to(Action::SumDurations { jobs }, *services),
            ),
            _ => step,
        },
{
    match step {
        Step::Ask(run, Action::SumDurations { jobs }) => {
            let reply = db.perform(Action::SumDurations { jobs }, services);
            run.step(reply)
        },
        other => other,
    }
}

/// The first part of a completion: what the completed job needs is read, the transaction
/// is opened, the completed job is written and the pending one removed.
fn record(
    db: &mut Store,
    queued_job: &QueuedJob,
    flow_status: Option<FlowStatus>,
    success: bool,
    skipped: bool,
    result: Value,
    logs: String,
    services: &Services,
) -> (step: Step<Completion, u128>)
    requires
        old(db).wf(),
        old(db)@.staged is None,
    ensures
        final(db).wf(),
        final(db)@.staged matches Some(staged) && is_upserted(
            old(db)@.live.completed,
            completion_row(old(db)@, *queued_job, flow_status, success, skipped, result, logs),
            old(db)@.now,
            staged.completed,
        ),
        final(db)@ == (StoreView {
            staged: Some(
                TablesView {
                    queue: without_pending(
                        old(db)@.live.queue,
                        queued_job.workspace_id@,
                        queued_job.id,
                    ),
                    completed: final(db)@.staged->0.completed,
                    acknowledged: if old(db)@.has_message_queue {
                        old(db)@.live.acknowledged.push(queued_job.id)
                    } else {
                        old(db)@.live.acknowledged
                    },
                    ..old(db)@.live
                },
            ),
            ..old(db)@
        }),
        step == (Completion {
            job: *queued_job,
            success,
            failure: failure_of(success, result),
            stage: crate::completion::Stage::Storing,
        }).deleted(
            stored_duration(
                old(db)@.live.completed,
                completion_row(old(db)@, *queued_job, flow_status, success, skipped, result, logs),
                old(db)@.now,
            ),
        ),
{
    let step = Completion::start(queued_job, flow_status, success, skipped, result, logs);
    let step = serve_durations(db, step, services);
    let step = serve(db, step, services);
    let step = serve(db, step, services);
    let step = serve(db, step, services);
    serve(db, step, services)
}

/// One exchange of a completion that has not yet come to its commit.
fn serve_before_commit(db: &mut Store, step: Step<Completion, u128>, services: &Services) -> (next:
    Step<Completion, u128>)
    requires
        old(db).wf(),
        step matches Step::Ask(_, action) ==> old(db)@.accepts(action),
    ensures
        final(db).wf(),
        match step {
            Step::Ask(run, action) => if action == Action::Commit {
                next == step && final(db)@ == old(db)@
            } else {
                &&& old(db)@.becomes(action, *services, final(db)@)
                &&& next == run.next(old(db)@.reply_to(action, *services))
            },
            Step::Finish(_) => next == step && final(db)@ == old(db)@,
        },
{
    match step {
        Step::Ask(run, Action::Commit) => Step::Ask(run, Action::Commit),
        Step::Ask(run, action) => {
            let reply = db.perform(action, services);
            run.step(reply)
        },
        Step::Finish(outcome) => Step::Finish(outcome),
    }
}

/// The second part of a completion: the coordination of the schedule, where the job
/// drives one. It takes at most five exchanges: the schedule, what the handler runs, the
/// handler, the next occurrence, and the schedule again where it is disabled.
fn coordinate(
    db: &mut Store,
    step: Step<Completion, u128>,
    services: &Services,
    Ghost(run): Ghost<Completion>,
    Ghost(stored): Ghost<Option<i64>>,
) -> (next: Step<Completion, u128>)
    requires
        old(db).wf(),
        old(db)@.staged is Some,
        step == run.deleted(stored),
    ensures
        final(db).wf(),
        coordinated(
            old(db)@,
            completion_verdict(old(db)@, run.job, run.success, run.failure, *services),
            final(db)@,
        ),
        next == match completion_verdict(
            old(db)@,
            run.job,
            run.success,
            run.failure,
            *services,
        ) {
            Verdict::Disabled { cause, .. } => Step::Finish(Err(cause)),
            _ => run.commit_of(stored),
        },
{
    let step = serve_before_commit(db, step, services);
    let step = serve_before_commit(db, step, services);
    let step = serve_before_commit(db, step, services);
    let step = serve_before_commit(db, step, services);
    serve_before_commit(db, step, services)
}

/// The last part of a completion: the commit, and after it the count of the execution and
/// the usage.
fn conclude(
    db: &mut Store,
    step: Step<Completion, u128>,
    services: &Services,
    Ghost(run): Ghost<Completion>,
    Ghost(stored): Ghost<Option<i64>>,
) -> (outcome: Result<u128, Error>)
    requires
        old(db).wf(),
        old(db)@.staged is Some,
        step == run.commit_of(stored),
    ensures
        final(db).wf(),
        outcome == Ok::<u128, Error>(run.job.id),
        final(db)@ == (StoreView {
            live: old(db)@.staged->0,
            staged: None,
            executions: counted_up(old(db)@.executions),
            usage: usage_after(old(db)@, run.job, stored),
            ..old(db)@
        }),
{
    let step = serve(db, step, services);
    let step = serve(db, step, services);
    let step = serve(db, step, services);
    let step = serve(db, step, services);
    match step {
        Step::Finish(outcome) => outcome,
        Step::Ask(_, _) => Err(Error::UnexpectedReply),
    }
}

/// Completes a job: moves it from the pending store to the terminal store, coordinates the
/// schedule that triggered it, and records its usage.
///
/// `flow_status` is the status that a flow recorded, where it could be read; `result` and
/// `logs` are what the job returned and printed. All that the completion writes is
/// committed together, or none of it where the coordination fails; only a schedule that
/// the coordination disables stays disabled. While a transaction is open the stores refuse.
pub fn add_completed_job(
    db: &mut Store,
    queued_job: &QueuedJob,
    flow_status: Option<FlowStatus>,
    success: bool,
    skipped: bool,
    result: Value,
    logs: String,
    services: &Services,
) -> (outcome: Result<u128, Error>)
    requires
        old(db).wf(),
    ensures
        final(db).wf(),
        old(db)@.staged is Some ==> final(db)@ == old(db)@ && is_refusal(
            outcome,
            "a transaction is open"@,
        ),
        old(db)@.staged is None ==> final(db)@.staged is None && completed(
            old(db)@,
            *queued_job,
            flow_status,
            success,
            skipped,
            result,
            logs,
            *services,
            final(db)@,
            outcome,
        ),
{
    if db.in_transaction() {
        return refusal("a transaction is open");
    }
    let ghost run = Completion {
        job: *queued_job,
        success,
        failure: failure_of(success, result),
        stage: crate::completion::Stage::Storing,
    };
    let ghost stored = stored_duration(
        db@.live.completed,
        completion_row(db@, *queued_job, flow_status, success, skipped, result, logs),
        db@.now,
    );
    let step = record(db, queued_job, flow_status, success, skipped, result, logs, services);
    let step = coordinate(db, step, services, Ghost(run), Ghost(stored));
    match step {
        Step::Finish(outcome) => {
            db.rollback();
            outcome
        },
        Step::Ask(run, action) => conclude(
            db,
            Step::Ask(run, action),
            services,
            Ghost(run),
            Ghost(stored),
        ),
    }
}

/// Whether `document` is the result of a job that failed with `error`: a JSON object with
/// `error` under the key `error`, and nothing else.
pub open spec fn is_error_result(error: Value, document: Value) -> bool {
    fields(document) == Some(no_entries().insert("error"@, error))
}

/// The result of a job that failed with `error`.
pub fn error_result(error: Value) -> (document: Value)
    ensures
        is_error_result(error, document),
{
    let mut object = empty_object();
    let _ = set_entry(&mut object, String::from_str("error"), error);
    object_document(object)
}

/// Completes a job that failed with the error `e`: as `add_completed_job` does for a job
/// that failed, was not skipped, and has the result that `error_result` makes of `e`.
/// Returns that result. While a transaction is open the stores refuse.
pub fn add_completed_job_error(
    db: &mut Store,
    queued_job: &QueuedJob,
    flow_status: Option<FlowStatus>,
    logs: String,
    e: Value,
    services: &Services,
) -> (outcome: Result<Value, Error>)
    requires
        old(db).wf(),
    ensures
        final(db).wf(),
        old(db)@.staged is Some ==> final(db)@ == old(db)@ && is_refusal(
            outcome,
            "a transaction is open"@,
        ),
        old(db)@.staged is None ==> final(db)@.staged is None && exists|document: Value|
            {
                &&& #[trigger] is_error_result(e, document)
                &&& outcome matches Ok(returned) ==> returned == document
                &&& completed(
                    old(db)@,
                    *queued_job,
                    flow_status,
                    false,
                    false,
                    document,
                    logs,
                    *services,
                    final(db)@,
                    match outcome {
                        Ok(_) => Ok(queued_job.id),
                        Err(cause) => Err(cause),
                    },
                )
            },
{
    if db.in_transaction() {
        return refusal("a transaction is open");
    }
    let result = error_result(e);
    let returned = result.clone();
    match add_completed_job(db, queued_job, flow_status, false, false, result, logs, services) {
        Ok(_) => {
            proof {
                assert(is_error_result(e, returned));
            }
            Ok(returned)
        },
        Err(cause) => {
            proof {
                assert(is_error_result(e, returned));
            }
            Err(cause)
        },
    }
}

} // verus!
