//! An in-memory backend: the pending store, the terminal store and the schedules, with one
//! transaction at a time.
use crate::error::Error;
use crate::job::{CompletedJob, HandlerJob, JobPayload, QueuedJob};
use crate::protocol::{Action, Event};
use crate::schedule::Schedule;
use vstd::prelude::*;
use vstd::string::*;

verus! {

/// Usage that was recorded for an account.
#[derive(Debug, PartialEq, Eq)]
pub struct Usage {
    pub account: String,
    pub is_workspace: bool,
    /// The month of the usage: twelve times the year, plus the month of the year.
    pub month: i32,
    pub units: i64,
}

impl Clone for Usage {
    fn clone(&self) -> (copy: Self)
        ensures
            copy == *self,
    {
        Usage {
            account: self.account.clone(),
            is_workspace: self.is_workspace,
            month: self.month,
            units: self.units,
        }
    }
}

/// A script or flow that can be run as the handler of a schedule.
#[derive(Debug, PartialEq, Eq)]
pub struct Runnable {
    pub workspace_id: String,
    pub path: String,
    pub payload: JobPayload,
    /// The workers that it is for; `None` leaves the choice to the queue.
    pub tag: Option<String>,
}

/// What the services beside the stores answer while a completion runs.
#[derive(Debug, PartialEq)]
pub struct Services {
    /// What can be run as a handler. Of two at one path of one workspace the later counts.
    pub runnables: Vec<Runnable>,
    /// What is answered where nothing can be run at the path of a handler.
    pub not_found: String,
    /// The job that the queue makes of a handler, or why the queue does not take it.
    pub enqueue: Result<u128, String>,
    /// Why the next occurrence of a schedule cannot be pushed, where it cannot.
    pub push: Result<(), String>,
}

/// What can be run at `path` in the workspace, if anything.
pub open spec fn resolved(
    runnables: Seq<Runnable>,
    workspace_id: Seq<char>,
    path: Seq<char>,
) -> Option<Runnable>
    decreases runnables.len(),
{
    if runnables.len() == 0 {
        None
    } else if runnables.last().workspace_id@ == workspace_id && runnables.last().path@ == path {
        Some(runnables.last())
    } else {
        resolved(runnables.drop_last(), workspace_id, path)
    }
}

impl Services {
    /// Finds what the handler at `path` in the workspace runs, and the workers that it is for.
    pub fn resolve(&self, workspace_id: &String, path: &String) -> (found: Option<
        (JobPayload, Option<String>),
    >)
        ensures
            found == match resolved(self.runnables@, workspace_id@, path@) {
                Some(runnable) => Some((runnable.payload, runnable.tag)),
                None => None,
            },
    {
        let mut found: Option<(JobPayload, Option<String>)> = None;
        let mut i: usize = 0;
        while i < self.runnables.len()
            invariant
                i <= self.runnables.len(),
                found == match resolved(self.runnables@.take(i as int), workspace_id@, path@) {
                    Some(runnable) => Some((runnable.payload, runnable.tag)),
                    None => None,
                },
            decreases self.runnables.len() - i,
        {
            proof {
                assert(self.runnables@.take(i + 1).drop_last() =~= self.runnables@.take(i as int));
                assert(self.runnables@.take(i + 1).last() == self.runnables@[i as int]);
            }
            let runnable = &self.runnables[i];
            if runnable.workspace_id == *workspace_id && runnable.path == *path {
                found = Some((runnable.payload.clone(), crate::job::copy_text(&runnable.tag)));
            }
            i = i + 1;
        }
        proof {
            assert(self.runnables@.take(self.runnables@.len() as int) =~= self.runnables@);
        }
        found
    }
}

/// What a transaction writes to.
struct Tables {
    queue: Vec<QueuedJob>,
    completed: Vec<CompletedJob>,
    handlers: Vec<HandlerJob>,
    occurrences: Vec<Schedule>,
    acknowledged: Vec<u128>,
}

/// The stores in memory.
pub struct Store {
    live: Tables,
    staged: Tables,
    in_transaction: bool,
    schedules: Vec<Schedule>,
    billed: Vec<String>,
    usage: Vec<Usage>,
    executions: u64,
    now: i64,
    month: i32,
    has_message_queue: bool,
}

/// What a transaction writes to, as sequences.
pub struct TablesView {
    /// The pending store.
    pub queue: Seq<QueuedJob>,
    /// The terminal store.
    pub completed: Seq<CompletedJob>,
    /// The handlers that were enqueued.
    pub handlers: Seq<HandlerJob>,
    /// The schedules whose next occurrence was pushed.
    pub occurrences: Seq<Schedule>,
    /// The jobs whose messages were acknowledged to the message queue.
    pub acknowledged: Seq<u128>,
}

/// The stores, as sequences.
pub struct StoreView {
    /// What is committed.
    pub live: TablesView,
    /// What the open transaction has made of it, where one is open.
    pub staged: Option<TablesView>,
    pub schedules: Seq<Schedule>,
    /// The workspaces whose usage is billed to the workspace.
    pub billed: Seq<String>,
    pub usage: Seq<Usage>,
    pub executions: u64,
    /// The time, in milliseconds since the epoch.
    pub now: i64,
    /// The month that usage is recorded for: twelve times the year, plus the month of the
    /// year.
    pub month: i32,
    /// Whether a message queue goes with the pending store.
    pub has_message_queue: bool,
}

/// Whether the pending store holds the job.
pub open spec fn has_pending(queue: Seq<QueuedJob>, job: u128) -> bool {
    exists|i: int| 0 <= i < queue.len() && (#[trigger] queue[i]).id == job
}

/// Where the pending store holds the job.
pub open spec fn pending_index(queue: Seq<QueuedJob>, job: u128) -> int {
    choose|i: int| 0 <= i < queue.len() && (#[trigger] queue[i]).id == job
}

/// No two pending jobs have one identifier.
pub open spec fn distinct_pending(queue: Seq<QueuedJob>) -> bool {
    forall|i: int, j: int|
        0 <= i < j < queue.len() ==> (#[trigger] queue[i]).id != (#[trigger] queue[j]).id
}

/// Whether the terminal store holds the job.
pub open spec fn has_completed(rows: Seq<CompletedJob>, job: u128) -> bool {
    exists|i: int| 0 <= i < rows.len() && (#[trigger] rows[i]).job.id == job
}

/// Where the terminal store holds the job.
pub open spec fn completed_index(rows: Seq<CompletedJob>, job: u128) -> int {
    choose|i: int| 0 <= i < rows.len() && (#[trigger] rows[i]).job.id == job
}

/// No two completed jobs have one identifier.
pub open spec fn distinct_completed(rows: Seq<CompletedJob>) -> bool {
    forall|i: int, j: int|
        0 <= i < j < rows.len() ==> (#[trigger] rows[i]).job.id != (#[trigger] rows[j]).job.id
}

/// Whether the schedule is the one at `path` in the workspace.
pub open spec fn is_at(schedule: Schedule, workspace_id: Seq<char>, path: Seq<char>) -> bool {
    schedule.workspace_id@ == workspace_id && schedule.path@ == path
}

/// Whether there is a schedule at `path` in the workspace.
pub open spec fn has_schedule(
    schedules: Seq<Schedule>,
    workspace_id: Seq<char>,
    path: Seq<char>,
) -> bool {
    exists|i: int| 0 <= i < schedules.len() && is_at(#[trigger] schedules[i], workspace_id, path)
}

/// Where the schedule at `path` in the workspace is.
pub open spec fn schedule_index(
    schedules: Seq<Schedule>,
    workspace_id: Seq<char>,
    path: Seq<char>,
) -> int {
    choose|i: int| 0 <= i < schedules.len() && is_at(#[trigger] schedules[i], workspace_id, path)
}

/// No two schedules are at one path of one workspace.
pub open spec fn distinct_schedules(schedules: Seq<Schedule>) -> bool {
    forall|i: int, j: int|
        0 <= i < j < schedules.len() ==> !is_at(
            #[trigger] schedules[i],
            (#[trigger] schedules[j]).workspace_id@,
            schedules[j].path@,
        )
}

/// The schedule at `path` in the workspace, if there is one.
pub open spec fn schedule_at(
    schedules: Seq<Schedule>,
    workspace_id: Seq<char>,
    path: Seq<char>,
) -> Option<Schedule> {
    if has_schedule(schedules, workspace_id, path) {
        Some(schedules[schedule_index(schedules, workspace_id, path)])
    } else {
        None
    }
}

/// The memory peak that the pending store tracks for the job.
pub open spec fn mem_peak_of(queue: Seq<QueuedJob>, job: u128) -> Option<i32> {
    if has_pending(queue, job) {
        queue[pending_index(queue, job)].mem_peak
    } else {
        None
    }
}

/// Whether the completed job counts for a sum over `jobs`: it is one of them and has a
/// duration.
pub open spec fn counts(row: CompletedJob, jobs: Seq<u128>) -> bool {
    jobs.contains(row.job.id) && row.duration_ms is Some
}

/// The sum of the durations of the completed jobs among `jobs`, each row once.
pub open spec fn duration_sum(rows: Seq<CompletedJob>, jobs: Seq<u128>) -> int
    decreases rows.len(),
{
    if rows.len() == 0 {
        0
    } else if counts(rows.last(), jobs) {
        duration_sum(rows.drop_last(), jobs) + rows.last().duration_ms->0
    } else {
        duration_sum(rows.drop_last(), jobs)
    }
}

/// Whether one of the completed jobs counts for a sum over `jobs`.
pub open spec fn any_counts(rows: Seq<CompletedJob>, jobs: Seq<u128>) -> bool {
    exists|i: int| 0 <= i < rows.len() && counts(#[trigger] rows[i], jobs)
}

/// The duration of a flow whose steps ran `jobs`: the sum of their durations, where one of
/// them has a duration and the sum is a duration.
pub open spec fn summed_durations(rows: Seq<CompletedJob>, jobs: Seq<u128>) -> Option<i64> {
    if any_counts(rows, jobs) && i64::MIN <= duration_sum(rows, jobs) <= i64::MAX {
        Some(duration_sum(rows, jobs) as i64)
    } else {
        None
    }
}

/// The time that a job took to run until `now`: nothing where it never started, unknown
/// where the difference is no duration.
pub open spec fn elapsed(now: i64, started_at: Option<i64>) -> Option<i64> {
    match started_at {
        Some(start) => if i64::MIN <= now - start <= i64::MAX {
            Some((now - start) as i64)
        } else {
            None
        },
        None => Some(0),
    }
}

/// The completed job as the terminal store first keeps it: with the time the job took to
/// run for a duration, where it comes with none.
pub open spec fn first_kept(row: CompletedJob, now: i64) -> CompletedJob {
    CompletedJob {
        duration_ms: match row.duration_ms {
            Some(duration) => Some(duration),
            None => elapsed(now, row.job.started_at),
        },
        ..row
    }
}

/// Whether `kept` is what the terminal store makes of `existing` when `row` comes for the
/// same job: `success` and `result` are those of `row`, the logs are those of `existing`
/// followed by those of `row`, and all else stays.
pub open spec fn is_merged(existing: CompletedJob, row: CompletedJob, kept: CompletedJob) -> bool {
    &&& kept == CompletedJob { success: row.success, result: row.result, logs: kept.logs, ..existing }
    &&& kept.logs@ == existing.logs@ + row.logs@
}

/// Whether `after` is the terminal store `before` once it has taken `row` at time `now`.
pub open spec fn is_upserted(
    before: Seq<CompletedJob>,
    row: CompletedJob,
    now: i64,
    after: Seq<CompletedJob>,
) -> bool {
    if has_completed(before, row.job.id) {
        let at = completed_index(before, row.job.id);
        &&& after.len() == before.len()
        &&& is_merged(before[at], row, after[at])
        &&& forall|i: int| 0 <= i < before.len() && i != at ==> #[trigger] after[i] == before[i]
    } else {
        after == before.push(first_kept(row, now))
    }
}

/// The duration that the terminal store holds for the job of `row` once it has taken `row`.
pub open spec fn stored_duration(before: Seq<CompletedJob>, row: CompletedJob, now: i64) -> Option<
    i64,
> {
    if has_completed(before, row.job.id) {
        before[completed_index(before, row.job.id)].duration_ms
    } else {
        first_kept(row, now).duration_ms
    }
}

/// The pending store without the job, where it holds the job in that workspace.
pub open spec fn without_pending(
    queue: Seq<QueuedJob>,
    workspace_id: Seq<char>,
    job: u128,
) -> Seq<QueuedJob> {
    if has_pending(queue, job) && queue[pending_index(queue, job)].workspace_id@ == workspace_id {
        queue.remove(pending_index(queue, job))
    } else {
        queue
    }
}

/// Whether `after` are the schedules `before` once the one at `path` in the workspace, if
/// there is one, is disabled with `text` for its error.
pub open spec fn is_disabled(
    before: Seq<Schedule>,
    workspace_id: Seq<char>,
    path: Seq<char>,
    text: Seq<char>,
    after: Seq<Schedule>,
) -> bool {
    if has_schedule(before, workspace_id, path) {
        let at = schedule_index(before, workspace_id, path);
        &&& after.len() == before.len()
        &&& after[at] == Schedule { enabled: false, error: after[at].error, ..before[at] }
        &&& after[at].error matches Some(error) && error@ == text
        &&& forall|i: int| 0 <= i < before.len() && i != at ==> #[trigger] after[i] == before[i]
    } else {
        after == before
    }
}

/// Whether usage in the workspace is billed to the workspace.
pub open spec fn is_billed(billed: Seq<String>, workspace_id: Seq<char>) -> bool {
    exists|i: int| 0 <= i < billed.len() && (#[trigger] billed[i])@ == workspace_id
}

/// One more than `count`, as far as a count goes.
pub open spec fn counted_up(count: u64) -> u64 {
    if count < u64::MAX {
        (count + 1) as u64
    } else {
        count
    }
}

impl TablesView {
    /// No identifier is held twice.
    pub open spec fn wf(self) -> bool {
        distinct_pending(self.queue) && distinct_completed(self.completed)
    }
}

impl StoreView {
    /// No identifier and no path is held twice, neither in what is committed nor in what
    /// the open transaction has made of it.
    pub open spec fn wf(self) -> bool {
        &&& self.live.wf()
        &&& self.staged matches Some(staged) ==> staged.wf()
        &&& distinct_schedules(self.schedules)
    }

    /// Whether the stores can do the action as they stand: what belongs in a transaction
    /// needs one open, and opening one needs none open.
    pub open spec fn accepts(self, action: Action) -> bool {
        match action {
            Action::Begin => self.staged is None,
            Action::Upsert { .. } => self.staged is Some,
            Action::DeletePending { .. } => self.staged is Some,
            Action::Enqueue { .. } => self.staged is Some,
            Action::PushNextOccurrence { .. } => self.staged is Some,
            Action::Commit => self.staged is Some,
            _ => true,
        }
    }

    /// What the stores say where they do not accept the action.
    pub open spec fn refusal(action: Action) -> Seq<char> {
        match action {
            Action::Begin => "a transaction is open"@,
            _ => "no transaction is open"@,
        }
    }

    /// What the stores answer to an action that they accept.
    pub open spec fn reply_to(self, action: Action, services: Services) -> Event {
        match action {
            Action::SumDurations { jobs } => Event::Duration(
                summed_durations(self.live.completed, jobs@),
            ),
            Action::PeekMemPeak { job } => Event::MemPeak(mem_peak_of(self.live.queue, job)),
            Action::Upsert { row } => Event::Stored(
                stored_duration(self.staged->0.completed, row, self.now),
            ),
            Action::GetSchedule { workspace_id, path } => Event::Schedule(
                schedule_at(self.schedules, workspace_id@, path@),
            ),
            Action::ResolvePayload { workspace_id, path } => match resolved(
                services.runnables@,
                workspace_id@,
                path@,
            ) {
                Some(runnable) => Event::Payload { payload: runnable.payload, tag: runnable.tag },
                None => Event::Failed(services.not_found),
            },
            Action::Enqueue { .. } => match services.enqueue {
                Ok(job) => Event::Enqueued(job),
                Err(cause) => Event::Failed(cause),
            },
            Action::PushNextOccurrence { .. } => match services.push {
                Ok(_) => Event::Done,
                Err(cause) => Event::Failed(cause),
            },
            Action::IsWorkspaceBilled { workspace_id } => Event::Billed(
                is_billed(self.billed, workspace_id@),
            ),
            _ => Event::Done,
        }
    }

    /// Whether `after` are the stores once they have done an action that they accept.
    pub open spec fn becomes(self, action: Action, services: Services, after: StoreView) -> bool {
        match action {
            Action::Begin => after == StoreView { staged: Some(self.live), ..self },
            Action::Upsert { row } => {
                &&& after.staged matches Some(staged)
                &&& staged == TablesView { completed: staged.completed, ..self.staged->0 }
                &&& is_upserted(self.staged->0.completed, row, self.now, staged.completed)
                &&& after == StoreView { staged: after.staged, ..self }
            },
            Action::DeletePending { workspace_id, job } => after == StoreView {
                staged: Some(
                    TablesView {
                        queue: without_pending(self.staged->0.queue, workspace_id@, job),
                        acknowledged: if self.has_message_queue {
                            self.staged->0.acknowledged.push(job)
                        } else {
                            self.staged->0.acknowledged
                        },
                        ..self.staged->0
                    },
                ),
                ..self
            },
            Action::Enqueue { handler } => after == if services.enqueue is Ok {
                StoreView {
                    staged: Some(
                        TablesView {
                            handlers: self.staged->0.handlers.push(handler),
                            ..self.staged->0
                        },
                    ),
                    ..self
                }
            } else {
                self
            },
            Action::PushNextOccurrence { schedule } => after == if services.push is Ok {
                StoreView {
                    staged: Some(
                        TablesView {
                            occurrences: self.staged->0.occurrences.push(schedule),
                            ..self.staged->0
                        },
                    ),
                    ..self
                }
            } else {
                self
            },
            Action::DisableSchedule { workspace_id, path, cause } => {
                &&& is_disabled(self.schedules, workspace_id@, path@, cause.text(), after.schedules)
                &&& after == StoreView { schedules: after.schedules, ..self }
            },
            Action::Commit => after == StoreView { live: self.staged->0, staged: None, ..self },
            Action::CountExecution => after == StoreView {
                executions: counted_up(self.executions),
                ..self
            },
            Action::RecordUsage { account, is_workspace, units } => after == StoreView {
                usage: self.usage.push(Usage { account, is_workspace, month: self.month, units }),
                ..self
            },
            _ => after == self,
        }
    }
}

impl View for Tables {
    type V = TablesView;

    closed spec fn view(&self) -> TablesView {
        TablesView {
            queue: self.queue@,
            completed: self.completed@,
            handlers: self.handlers@,
            occurrences: self.occurrences@,
            acknowledged: self.acknowledged@,
        }
    }
}

impl View for Store {
    type V = StoreView;

    closed spec fn view(&self) -> StoreView {
        StoreView {
            live: self.live@,
            staged: if self.in_transaction {
                Some(self.staged@)
            } else {
                None
            },
            schedules: self.schedules@,
            billed: self.billed@,
            usage: self.usage@,
            executions: self.executions,
            now: self.now,
            month: self.month,
            has_message_queue: self.has_message_queue,
        }
    }
}

fn find_pending(queue: &Vec<QueuedJob>, job: u128) -> (found: Option<usize>)
    requires
        distinct_pending(queue@),
    ensures
        match found {
            Some(at) => has_pending(queue@, job) && at == pending_index(queue@, job),
            None => !has_pending(queue@, job),
        },
{
    let mut i: usize = 0;
    while i < queue.len()
        invariant
            i <= queue.len(),
            distinct_pending(queue@),
            forall|k: int| 0 <= k < i ==> (#[trigger] queue@[k]).id != job,
        decreases queue.len() - i,
    {
        if queue[i].id == job {
            proof {
                assert(queue@[i as int].id == job);
                assert(queue@[pending_index(queue@, job)].id == job);
            }
            return Some(i);
        }
        i = i + 1;
    }
    None
}

fn find_completed(rows: &Vec<CompletedJob>, job: u128) -> (found: Option<usize>)
    requires
        distinct_completed(rows@),
    ensures
        match found {
            Some(at) => has_completed(rows@, job) && at == completed_index(rows@, job),
            None => !has_completed(rows@, job),
        },
{
    let mut i: usize = 0;
    while i < rows.len()
        invariant
            i <= rows.len(),
            distinct_completed(rows@),
            forall|k: int| 0 <= k < i ==> (#[trigger] rows@[k]).job.id != job,
        decreases rows.len() - i,
    {
        if rows[i].job.id == job {
            proof {
                assert(rows@[i as int].job.id == job);
                assert(rows@[completed_index(rows@, job)].job.id == job);
            }
            return Some(i);
        }
        i = i + 1;
    }
    None
}

fn find_schedule(schedules: &Vec<Schedule>, workspace_id: &String, path: &String) -> (found:
    Option<usize>)
    requires
        distinct_schedules(schedules@),
    ensures
        match found {
            Some(at) => has_schedule(schedules@, workspace_id@, path@) && at == schedule_index(
                schedules@,
                workspace_id@,
                path@,
            ),
            None => !has_schedule(schedules@, workspace_id@, path@),
        },
{
    let mut i: usize = 0;
    while i < schedules.len()
        invariant
            i <= schedules.len(),
            distinct_schedules(schedules@),
            forall|k: int| 0 <= k < i ==> !is_at(#[trigger] schedules@[k], workspace_id@, path@),
        decreases schedules.len() - i,
    {
        if schedules[i].workspace_id == *workspace_id && schedules[i].path == *path {
            proof {
                assert(is_at(schedules@[i as int], workspace_id@, path@));
                assert(is_at(
                    schedules@[schedule_index(schedules@, workspace_id@, path@)],
                    workspace_id@,
                    path@,
                ));
            }
            return Some(i);
        }
        i = i + 1;
    }
    None
}

fn is_among(jobs: &Vec<u128>, job: u128) -> (found: bool)
    ensures
        found == jobs@.contains(job),
{
    let mut i: usize = 0;
    while i < jobs.len()
        invariant
            i <= jobs.len(),
            forall|k: int| 0 <= k < i ==> jobs@[k] != job,
        decreases jobs.len() - i,
    {
        if jobs[i] == job {
            return true;
        }
        i = i + 1;
    }
    false
}

impl Tables {
    fn new() -> (tables: Tables)
        ensures
            tables@ == (TablesView {
                queue: Seq::empty(),
                completed: Seq::empty(),
                handlers: Seq::empty(),
                occurrences: Seq::empty(),
                acknowledged: Seq::empty(),
            }),
    {
        Tables {
            queue: Vec::new(),
            completed: Vec::new(),
            handlers: Vec::new(),
            occurrences: Vec::new(),
            acknowledged: Vec::new(),
        }
    }

    fn copy(&self) -> (tables: Tables)
        ensures
            tables@ == self@,
    {
        let tables = Tables {
            queue: self.queue.clone(),
            completed: self.completed.clone(),
            handlers: self.handlers.clone(),
            occurrences: self.occurrences.clone(),
            acknowledged: self.acknowledged.clone(),
        };
        proof {
            assert(tables.queue@ =~= self.queue@);
            assert(tables.completed@ =~= self.completed@);
            assert(tables.handlers@ =~= self.handlers@);
            assert(tables.occurrences@ =~= self.occurrences@);
            assert(tables.acknowledged@ =~= self.acknowledged@);
        }
        tables
    }
}

/// The stores with nothing in them.
pub open spec fn empty_stores(has_message_queue: bool) -> StoreView {
    StoreView {
        live: TablesView {
            queue: Seq::empty(),
            completed: Seq::empty(),
            handlers: Seq::empty(),
            occurrences: Seq::empty(),
            acknowledged: Seq::empty(),
        },
        staged: None,
        schedules: Seq::empty(),
        billed: Seq::empty(),
        usage: Seq::empty(),
        executions: 0,
        now: 0,
        month: 0,
        has_message_queue,
    }
}

impl Store {
    /// No identifier and no path is held twice.
    pub open spec fn wf(self) -> bool {
        self@.wf()
    }

    /// New stores with nothing in them, at time 0 of month 0, with or without a message queue.
    pub fn new(has_message_queue: bool) -> (db: Store)
        ensures
            db.wf(),
            db@ == empty_stores(has_message_queue),
    {
        Store {
            live: Tables::new(),
            staged: Tables::new(),
            in_transaction: false,
            schedules: Vec::new(),
            billed: Vec::new(),
            usage: Vec::new(),
            executions: 0,
            now: 0,
            month: 0,
            has_message_queue,
        }
    }

    /// Sets the time, in milliseconds since the epoch.
    pub fn set_clock(&mut self, now: i64)
        ensures
            final(self)@ == (StoreView { now, ..old(self)@ }),
    {
        self.now = now;
    }

    /// Sets the month that usage is recorded for.
    pub fn set_month(&mut self, month: i32)
        ensures
            final(self)@ == (StoreView { month, ..old(self)@ }),
    {
        self.month = month;
    }

    /// Puts a job in the pending store, as committed, unless the store holds a job of that
    /// identifier; says whether it did.
    pub fn insert_pending(&mut self, job: QueuedJob) -> (inserted: bool)
        requires
            old(self).wf(),
        ensures
            final(self).wf(),
            inserted == !has_pending(old(self)@.live.queue, job.id),
            final(self)@ == if inserted {
                StoreView {
                    live: TablesView {
                        queue: old(self)@.live.queue.push(job),
                        ..old(self)@.live
                    },
                    ..old(self)@
                }
            } else {
                old(self)@
            },
    {
        let ghost before = self.live.queue@;
        match find_pending(&self.live.queue, job.id) {
            Some(_) => false,
            None => {
                self.live.queue.push(job);
                proof {
                    let after = self.live.queue@;
                    assert forall|i: int, j: int| 0 <= i < j < after.len() implies (
                    #[trigger] after[i]).id != (#[trigger] after[j]).id by {
                        if j < before.len() {
                            assert(before[i].id != before[j].id);
                        } else {
                            assert(before[i].id != job.id);
                        }
                    }
                }
                true
            },
        }
    }

    /// Puts a completed job in the terminal store, as committed and as it is, unless the
    /// store holds a job of that identifier; says whether it did.
    pub fn insert_completed(&mut self, row: CompletedJob) -> (inserted: bool)
        requires
            old(self).wf(),
        ensures
            final(self).wf(),
            inserted == !has_completed(old(self)@.live.completed, row.job.id),
            final(self)@ == if inserted {
                StoreView {
                    live: TablesView {
                        completed: old(self)@.live.completed.push(row),
                        ..old(self)@.live
                    },
                    ..old(self)@
                }
            } else {
                old(self)@
            },
    {
        let ghost before = self.live.completed@;
        match find_completed(&self.live.completed, row.job.id) {
            Some(_) => false,
            None => {
                self.live.completed.push(row);
                proof {
                    let after = self.live.completed@;
                    assert forall|i: int, j: int| 0 <= i < j < after.len() implies (
                    #[trigger] after[i]).job.id != (#[trigger] after[j]).job.id by {
                        if j < before.len() {
                            assert(before[i].job.id != before[j].job.id);
                        } else {
                            assert(before[i].job.id != row.job.id);
                        }
                    }
                }
                true
            },
        }
    }

    /// Adds a schedule, unless there is one at that path of that workspace; says whether it
    /// did.
    pub fn insert_schedule(&mut self, schedule: Schedule) -> (inserted: bool)
        requires
            old(self).wf(),
        ensures
            final(self).wf(),
            inserted == !has_schedule(
                old(self)@.schedules,
                schedule.workspace_id@,
                schedule.path@,
            ),
            final(self)@ == if inserted {
                StoreView { schedules: old(self)@.schedules.push(schedule), ..old(self)@ }
            } else {
                old(self)@
            },
    {
        let ghost before = self.schedules@;
        match find_schedule(&self.schedules, &schedule.workspace_id, &schedule.path) {
            Some(_) => false,
            None => {
                self.schedules.push(schedule);
                proof {
                    let after = self.schedules@;
                    assert forall|i: int, j: int| 0 <= i < j < after.len() implies !is_at(
                        #[trigger] after[i],
                        (#[trigger] after[j]).workspace_id@,
                        after[j].path@,
                    ) by {
                        if j < before.len() {
                            assert(!is_at(before[i], before[j].workspace_id@, before[j].path@));
                        } else {
                            assert(!is_at(before[i], schedule.workspace_id@, schedule.path@));
                        }
                    }
                }
                true
            },
        }
    }

    /// Has the usage in the workspace billed to the workspace from now on.
    pub fn bill_workspace(&mut self, workspace_id: String)
        ensures
            final(self)@ == (StoreView {
                billed: old(self)@.billed.push(workspace_id),
                ..old(self)@
            }),
    {
        self.billed.push(workspace_id);
    }

    /// The pending job of that identifier, as committed.
    pub fn pending(&self, job: u128) -> (found: Option<QueuedJob>)
        requires
            self.wf(),
        ensures
            found == if has_pending(self@.live.queue, job) {
                Some(self@.live.queue[pending_index(self@.live.queue, job)])
            } else {
                None
            },
    {
        match find_pending(&self.live.queue, job) {
            Some(at) => Some(self.live.queue[at].clone()),
            None => None,
        }
    }

    /// The completed job of that identifier, as committed.
    pub fn completed(&self, job: u128) -> (found: Option<CompletedJob>)
        requires
            self.wf(),
        ensures
            found == if has_completed(self@.live.completed, job) {
                Some(self@.live.completed[completed_index(self@.live.completed, job)])
            } else {
                None
            },
    {
        match find_completed(&self.live.completed, job) {
            Some(at) => Some(self.live.completed[at].clone()),
            None => None,
        }
    }

    /// How many completed jobs are committed.
    pub fn completed_count(&self) -> (count: usize)
        ensures
            count == self@.live.completed.len(),
    {
        self.live.completed.len()
    }

    /// The handlers that were enqueued, as committed.
    pub fn handlers(&self) -> (handlers: Vec<HandlerJob>)
        ensures
            handlers@ == self@.live.handlers,
    {
        let handlers = self.live.handlers.clone();
        proof {
            assert(handlers@ =~= self.live.handlers@);
        }
        handlers
    }

    /// The schedules whose next occurrence was pushed, as committed.
    pub fn occurrences(&self) -> (occurrences: Vec<Schedule>)
        ensures
            occurrences@ == self@.live.occurrences,
    {
        let occurrences = self.live.occurrences.clone();
        proof {
            assert(occurrences@ =~= self.live.occurrences@);
        }
        occurrences
    }

    /// The jobs whose messages were acknowledged to the message queue, as committed.
    pub fn acknowledged(&self) -> (acknowledged: Vec<u128>)
        ensures
            acknowledged@ == self@.live.acknowledged,
    {
        let acknowledged = self.live.acknowledged.clone();
        proof {
            assert(acknowledged@ =~= self.live.acknowledged@);
        }
        acknowledged
    }

    /// The usage that was recorded.
    pub fn usage(&self) -> (usage: Vec<Usage>)
        ensures
            usage@ == self@.usage,
    {
        let usage = self.usage.clone();
        proof {
            assert(usage@ =~= self.usage@);
        }
        usage
    }

    /// How many executions were counted.
    pub fn executions(&self) -> (count: u64)
        ensures
            count == self@.executions,
    {
        self.executions
    }

    /// Whether a transaction is open.
    pub fn in_transaction(&self) -> (open: bool)
        ensures
            open == self@.staged is Some,
    {
        self.in_transaction
    }

    /// Adds up the durations of the completed jobs among `jobs`.
    pub fn sum_durations(&self, jobs: &Vec<u128>) -> (sum: Option<i64>)
        ensures
            sum == summed_durations(self@.live.completed, jobs@),
    {
        let rows = &self.live.completed;
        let mut total: i128 = 0;
        let mut any = false;
        let mut i: usize = 0;
        while i < rows.len()
            invariant
                i <= rows.len(),
                total == duration_sum(rows@.take(i as int), jobs@),
                any == any_counts(rows@.take(i as int), jobs@),
                -(i as int) * 0x8000_0000_0000_0000 <= total <= (i as int) * 0x8000_0000_0000_0000,
            decreases rows.len() - i,
        {
            proof {
                assert(rows@.take(i + 1).drop_last() =~= rows@.take(i as int));
                assert(rows@.take(i + 1).last() == rows@[i as int]);
            }
            let hit = is_among(jobs, rows[i].job.id);
            match rows[i].duration_ms {
                Some(duration) if hit => {
                    total = total + duration as i128;
                    proof {
                        assert(counts(rows@.take(i + 1)[i as int], jobs@));
                    }
                    any = true;
                },
                _ => {
                    proof {
                        if any {
                            let k = choose|k: int|
                                0 <= k < i && counts(#[trigger] rows@.take(i as int)[k], jobs@);
                            assert(counts(rows@.take(i + 1)[k], jobs@));
                        }
                        if any_counts(rows@.take(i + 1), jobs@) {
                            let k = choose|k: int|
                                0 <= k < i + 1 && counts(#[trigger] rows@.take(i + 1)[k], jobs@);
                            assert(counts(rows@.take(i as int)[k], jobs@));
                        }
                    }
                },
            }
            i = i + 1;
        }
        proof {
            assert(rows@.take(rows@.len() as int) =~= rows@);
        }
        if any && -0x8000_0000_0000_0000 <= total && total <= 0x7fff_ffff_ffff_ffff {
            Some(total as i64)
        } else {
            None
        }
    }

    /// Reads the memory peak that the pending store tracks for the job.
    pub fn peek_mem_peak(&self, job: u128) -> (mem_peak: Option<i32>)
        requires
            self.wf(),
        ensures
            mem_peak == mem_peak_of(self@.live.queue, job),
    {
        match find_pending(&self.live.queue, job) {
            Some(at) => self.live.queue[at].mem_peak,
            None => None,
        }
    }

    /// Opens the transaction, which starts from what is committed, unless one is open; says
    /// whether it did.
    pub fn begin(&mut self) -> (opened: bool)
        requires
            old(self).wf(),
        ensures
            final(self).wf(),
            opened == old(self)@.staged is None,
            final(self)@ == if opened {
                StoreView { staged: Some(old(self)@.live), ..old(self)@ }
            } else {
                old(self)@
            },
    {
        if self.in_transaction {
            return false;
        }
        self.staged = self.live.copy();
        self.in_transaction = true;
        true
    }

    /// Drops the transaction, if one is open, with all that it wrote.
    pub fn rollback(&mut self)
        requires
            old(self).wf(),
        ensures
            final(self).wf(),
            final(self)@ == (StoreView { staged: None, ..old(self)@ }),
    {
        self.in_transaction = false;
    }

    /// Commits the transaction, if one is open: what it wrote is what is committed. Says
    /// whether it did.
    pub fn commit(&mut self) -> (committed: bool)
        requires
            old(self).wf(),
        ensures
            final(self).wf(),
            committed == old(self)@.staged is Some,
            final(self)@ == if committed {
                StoreView { live: old(self)@.staged->0, staged: None, ..old(self)@ }
            } else {
                old(self)@
            },
    {
        if !self.in_transaction {
            return false;
        }
        core::mem::swap(&mut self.live, &mut self.staged);
        self.in_transaction = false;
        true
    }

    /// In the transaction, writes the completed job, and returns the duration that the
    /// terminal store then holds for it.
    fn upsert(&mut self, row: CompletedJob) -> (stored: Option<i64>)
        requires
            old(self).wf(),
            old(self)@.staged is Some,
        ensures
            final(self).wf(),
            old(self)@.becomes(Action::Upsert { row }, arbitrary(), final(self)@),
            stored == stored_duration(old(self)@.staged->0.completed, row, old(self)@.now),
    {
        let ghost before = self.staged.completed@;
        match find_completed(&self.staged.completed, row.job.id) {
            Some(at) => {
                let mut kept = self.staged.completed[at].clone();
                let stored = kept.duration_ms;
                kept.success = row.success;
                kept.result = row.result;
                kept.logs.append(row.logs.as_str());
                self.staged.completed.set(at, kept);
                proof {
                    let after = self.staged.completed@;
                    assert forall|i: int, j: int| 0 <= i < j < after.len() implies (
                    #[trigger] after[i]).job.id != (#[trigger] after[j]).job.id by {
                        assert(before[i].job.id != before[j].job.id);
                    }
                }
                stored
            },
            None => {
                let duration_ms = match row.duration_ms {
                    Some(duration) => Some(duration),
                    None => match row.job.started_at {
                        Some(start) => self.now.checked_sub(start),
                        None => Some(0),
                    },
                };
                let mut kept = row;
                kept.duration_ms = duration_ms;
                self.staged.completed.push(kept);
                proof {
                    let after = self.staged.completed@;
                    assert forall|i: int, j: int| 0 <= i < j < after.len() implies (
                    #[trigger] after[i]).job.id != (#[trigger] after[j]).job.id by {
                        if j < before.len() {
                            assert(before[i].job.id != before[j].job.id);
                        } else {
                            assert(before[i].job.id != row.job.id);
                        }
                    }
                }
                duration_ms
            },
        }
    }

    /// In the transaction, removes the job from the pending store, and acknowledges its
    /// message where a message queue goes with the store.
    fn delete_pending(&mut self, workspace_id: &String, job: u128)
        requires
            old(self).wf(),
            old(self)@.staged is Some,
        ensures
            final(self).wf(),
            old(self)@.becomes(
                Action::DeletePending { workspace_id: *workspace_id, job },
                arbitrary(),
                final(self)@,
            ),
    {
        let ghost before = self.staged.queue@;
        match find_pending(&self.staged.queue, job) {
            Some(at) => {
                if self.staged.queue[at].workspace_id == *workspace_id {
                    let _ = self.staged.queue.remove(at);
                    proof {
                        let after = self.staged.queue@;
                        assert forall|i: int, j: int| 0 <= i < j < after.len() implies (
                        #[trigger] after[i]).id != (#[trigger] after[j]).id by {
                            let from_i = if i < at { i } else { i + 1 };
                            let from_j = if j < at { j } else { j + 1 };
                            assert(before[from_i].id != before[from_j].id);
                        }
                    }
                }
            },
            None => {},
        }
        if self.has_message_queue {
            self.staged.acknowledged.push(job);
        }
    }

    /// Reads the schedule at `path` in the workspace.
    pub fn get_schedule(&self, workspace_id: &String, path: &String) -> (found: Option<Schedule>)
        requires
            self.wf(),
        ensures
            found == schedule_at(self@.schedules, workspace_id@, path@),
    {
        match find_schedule(&self.schedules, workspace_id, path) {
            Some(at) => Some(self.schedules[at].clone()),
            None => None,
        }
    }

    /// Disables the schedule at `path` in the workspace and records the text of `cause` as
    /// its error. This is no part of the transaction: it stays whatever becomes of that.
    pub fn disable_schedule(&mut self, workspace_id: &String, path: &String, cause: &Error)
        requires
            old(self).wf(),
        ensures
            final(self).wf(),
            old(self)@.becomes(
                Action::DisableSchedule { workspace_id: *workspace_id, path: *path, cause: *cause },
                arbitrary(),
                final(self)@,
            ),
    {
        let ghost before = self.schedules@;
        match find_schedule(&self.schedules, workspace_id, path) {
            Some(at) => {
                let mut kept = self.schedules[at].clone();
                kept.enabled = false;
                kept.error = Some(cause.message());
                self.schedules.set(at, kept);
                proof {
                    let after = self.schedules@;
                    assert forall|i: int, j: int| 0 <= i < j < after.len() implies !is_at(
                        #[trigger] after[i],
                        (#[trigger] after[j]).workspace_id@,
                        after[j].path@,
                    ) by {
                        assert(!is_at(before[i], before[j].workspace_id@, before[j].path@));
                    }
                }
            },
            None => {},
        }
    }

    /// Says whether usage in the workspace is billed to the workspace.
    pub fn is_workspace_billed(&self, workspace_id: &String) -> (billed: bool)
        ensures
            billed == is_billed(self@.billed, workspace_id@),
    {
        let mut i: usize = 0;
        while i < self.billed.len()
            invariant
                i <= self.billed.len(),
                forall|k: int| 0 <= k < i ==> (#[trigger] self.billed@[k])@ != workspace_id@,
            decreases self.billed.len() - i,
        {
            if self.billed[i] == *workspace_id {
                return true;
            }
            i = i + 1;
        }
        false
    }

    /// Does one action, and answers it. What the stores cannot do as they stand they refuse:
    /// they answer that it failed, and stay as they are.
    pub fn perform(&mut self, action: Action, services: &Services) -> (reply: Event)
        requires
            old(self).wf(),
        ensures
            final(self).wf(),
            old(self)@.accepts(action) ==> reply == old(self)@.reply_to(action, *services),
            old(self)@.accepts(action) ==> old(self)@.becomes(action, *services, final(self)@),
            !old(self)@.accepts(action) ==> final(self)@ == old(self)@ && (reply matches Event::Failed(
                text,
            ) && text@ == StoreView::refusal(action)),
    {
        let accepted = match &action {
            Action::Begin => !self.in_transaction,
            Action::Upsert { .. }
            | Action::DeletePending { .. }
            | Action::Enqueue { .. }
            | Action::PushNextOccurrence { .. }
            | Action::Commit => self.in_transaction,
            _ => true,
        };
        if !accepted {
            return match &action {
                Action::Begin => Event::Failed(String::from_str("a transaction is open")),
                _ => Event::Failed(String::from_str("no transaction is open")),
            };
        }
        match action {
            Action::SumDurations { jobs } => Event::Duration(self.sum_durations(&jobs)),
            Action::PeekMemPeak { job } => Event::MemPeak(self.peek_mem_peak(job)),
            Action::Begin => {
                let _ = self.begin();
                Event::Done
            },
            Action::Upsert { row } => Event::Stored(self.upsert(row)),
            Action::DeletePending { workspace_id, job } => {
                self.delete_pending(&workspace_id, job);
                Event::Done
            },
            Action::GetSchedule { workspace_id, path } => Event::Schedule(
                self.get_schedule(&workspace_id, &path),
            ),
            Action::ResolvePayload { workspace_id, path } => match services.resolve(
                &workspace_id,
                &path,
            ) {
                Some(found) => Event::Payload { payload: found.0, tag: found.1 },
                None => Event::Failed(services.not_found.clone()),
            },
            Action::Enqueue { handler } => match &services.enqueue {
                Ok(job) => {
                    self.staged.handlers.push(handler);
                    Event::Enqueued(*job)
                },
                Err(cause) => Event::Failed(cause.clone()),
            },
            Action::PushNextOccurrence { schedule } => match &services.push {
                Ok(_) => {
                    self.staged.occurrences.push(schedule);
                    Event::Done
                },
                Err(cause) => Event::Failed(cause.clone()),
            },
            Action::DisableSchedule { workspace_id, path, cause } => {
                self.disable_schedule(&workspace_id, &path, &cause);
                Event::Done
            },
            Action::Commit => {
                let _ = self.commit();
                Event::Done
            },
            Action::CountExecution => {
                if self.executions < u64::MAX {
                    self.executions = self.executions + 1;
                }
                Event::Done
            },
            Action::IsWorkspaceBilled { workspace_id } => Event::Billed(
                self.is_workspace_billed(&workspace_id),
            ),
            Action::RecordUsage { account, is_workspace, units } => {
                self.usage.push(Usage { account, is_workspace, month: self.month, units });
                Event::Done
            },
        }
    }
}

} // verus!
