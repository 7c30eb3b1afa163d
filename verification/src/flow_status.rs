//! The recorded status of a flow's steps, and the jobs that make up its duration.
use vstd::prelude::*;

verus! {

/// The recorded outcome of one step of a flow.
#[derive(Debug, PartialEq, Eq)]
pub enum FlowStatusModule {
    WaitingForPriorSteps { id: String },
    WaitingForEvents { id: String, job: u128 },
    WaitingForExecutor { id: String, job: u128 },
    InProgress { id: String, job: u128, flow_jobs: Option<Vec<u128>> },
    /// The step succeeded. With `flow_jobs` the step was itself a flow, and `job` only holds
    /// the jobs listed there.
    Success { id: String, job: u128, flow_jobs: Option<Vec<u128>> },
    /// The step failed. `flow_jobs` as for `Success`.
    Failure { id: String, job: u128, flow_jobs: Option<Vec<u128>> },
}

/// The recorded status of a flow: its steps in order, and the failure step if one ran.
#[derive(Debug, PartialEq, Eq)]
pub struct FlowStatus {
    pub modules: Vec<FlowStatusModule>,
    pub failure_module: Option<FlowStatusModule>,
}

impl FlowStatusModule {
    /// The jobs whose durations count for this step: the nested jobs of a finished step
    /// that was a flow, the step's own job where it was not, none for an unfinished step.
    pub open spec fn leaves(self) -> Seq<u128> {
        match self {
            FlowStatusModule::Success { job, flow_jobs, .. } => match flow_jobs {
                Some(nested) => nested@,
                None => seq![job],
            },
            FlowStatusModule::Failure { job, flow_jobs, .. } => match flow_jobs {
                Some(nested) => nested@,
                None => seq![job],
            },
            FlowStatusModule::WaitingForPriorSteps { .. } => Seq::empty(),
            FlowStatusModule::WaitingForEvents { .. } => Seq::empty(),
            FlowStatusModule::WaitingForExecutor { .. } => Seq::empty(),
            FlowStatusModule::InProgress { .. } => Seq::empty(),
        }
    }
}

/// The jobs whose durations count for a sequence of steps, step after step.
pub open spec fn leaf_jobs(modules: Seq<FlowStatusModule>) -> Seq<u128>
    decreases modules.len(),
{
    if modules.len() == 0 {
        Seq::empty()
    } else {
        leaf_jobs(modules.drop_last()) + modules.last().leaves()
    }
}

/// The jobs of a sequence of steps are those of its first part followed by those of the rest.
pub proof fn lemma_leaf_jobs_concat(front: Seq<FlowStatusModule>, back: Seq<FlowStatusModule>)
    ensures
        leaf_jobs(front + back) == leaf_jobs(front) + leaf_jobs(back),
    decreases back.len(),
{
    if back.len() == 0 {
        assert(front + back =~= front);
    } else {
        lemma_leaf_jobs_concat(front, back.drop_last());
        assert((front + back).drop_last() =~= front + back.drop_last());
        assert((front + back).last() == back.last());
    }
}

/// A job counts for a sequence of steps exactly if it counts for one of the steps.
pub proof fn lemma_leaf_jobs_membership(modules: Seq<FlowStatusModule>, job: u128)
    ensures
        leaf_jobs(modules).contains(job) <==> exists|i: int|
            0 <= i < modules.len() && #[trigger] modules[i].leaves().contains(job),
    decreases modules.len(),
{
    if modules.len() > 0 {
        let front = modules.drop_last();
        lemma_leaf_jobs_membership(front, job);
        let all = leaf_jobs(front) + modules.last().leaves();
        if leaf_jobs(modules).contains(job) {
            let k = choose|k: int| 0 <= k < all.len() && all[k] == job;
            if k < leaf_jobs(front).len() {
                assert(leaf_jobs(front)[k] == job);
                let i = choose|i: int|
                    0 <= i < front.len() && #[trigger] front[i].leaves().contains(job);
                assert(modules[i].leaves().contains(job));
            } else {
                assert(modules.last().leaves()[k - leaf_jobs(front).len()] == job);
                assert(modules[modules.len() - 1].leaves().contains(job));
            }
        }
        if exists|i: int| 0 <= i < modules.len() && #[trigger] modules[i].leaves().contains(job) {
            let i = choose|i: int|
                0 <= i < modules.len() && #[trigger] modules[i].leaves().contains(job);
            if i < front.len() {
                assert(front[i].leaves().contains(job));
                let k = choose|k: int| 0 <= k < leaf_jobs(front).len() && leaf_jobs(front)[k] == job;
                assert(all[k] == job);
            } else {
                let leaves = modules.last().leaves();
                let k = choose|k: int| 0 <= k < leaves.len() && leaves[k] == job;
                assert(all[leaf_jobs(front).len() + k] == job);
            }
        }
    }
}

/// Flattens the recorded steps of a flow into the jobs whose durations make up the
/// flow's duration, in the order of the steps.
pub fn flatten_jobs(modules: Vec<FlowStatusModule>) -> (jobs: Vec<u128>)
    ensures
        jobs@ == leaf_jobs(modules@),
{
    let mut jobs: Vec<u128> = Vec::new();
    let mut i: usize = 0;
    while i < modules.len()
        invariant
            i <= modules.len(),
            jobs@ == leaf_jobs(modules@.take(i as int)),
        decreases modules.len() - i,
    {
        proof {
            assert(modules@.take(i + 1).drop_last() =~= modules@.take(i as int));
            assert(modules@.take(i + 1).last() == modules@[i as int]);
        }
        match &modules[i] {
            FlowStatusModule::Success { job, flow_jobs, .. }
            | FlowStatusModule::Failure { job, flow_jobs, .. } => {
                match flow_jobs {
                    Some(nested) => {
                        let ghost before = jobs@;
                        let mut k: usize = 0;
                        while k < nested.len()
                            invariant
                                k <= nested.len(),
                                jobs@ == before + nested@.take(k as int),
                            decreases nested.len() - k,
                        {
                            jobs.push(nested[k]);
                            proof {
                                assert(nested@.take(k + 1) =~= nested@.take(k as int).push(
                                    nested@[k as int],
                                ));
                            }
                            k = k + 1;
                        }
                        proof {
                            assert(nested@.take(nested@.len() as int) =~= nested@);
                        }
                    },
                    None => {
                        jobs.push(*job);
                        proof {
                            assert(jobs@ =~= leaf_jobs(modules@.take(i as int)) + seq![*job]);
                        }
                    },
                }
            },
            FlowStatusModule::WaitingForPriorSteps { .. }
            | FlowStatusModule::WaitingForEvents { .. }
            | FlowStatusModule::WaitingForExecutor { .. }
            | FlowStatusModule::InProgress { .. } => {
                proof {
                    assert(jobs@ =~= jobs@ + Seq::<u128>::empty());
                }
            },
        }
        i = i + 1;
    }
    proof {
        assert(modules@.take(modules@.len() as int) =~= modules@);
    }
    jobs
}

} // verus!
