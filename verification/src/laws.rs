use vstd::prelude::*;

use crate::agent::{stake_fits, staked_agent, unstake_allowed, unstaked_agent, Agent};
use crate::job::{
    checkpoint_allowed, checkpoint_fits, checkpointed_job, credited_agent, dispute_allowed,
    disputed_job, job_wf, penalized_agent, settle_allowed, settled_job, status_rank, Job,
    JobStatus,
};
use crate::resolve::{
    resolved_job_challenger, resolved_job_provider, slash_covered, slashed_agent, vindicated_agent,
};

verus! {

/// One caller-initiated operation on a provider's agent record and its
/// job, after the host has authenticated the caller and bound the
/// records the operation names.
///
/// `step` below maps each of these to exactly the success outcome that
/// the corresponding executable operation promises in its `ensures`
/// (`staked_agent`, `checkpointed_job`, `settled_job`, ...), and to
/// "both records unchanged" where that operation's guard would make it
/// abort — the abort-with-zero-mutation rule. Laws proved over `step`
/// therefore hold of any sequence of the executable operations.
pub enum MarketOp {
    /// Deposit the amount into the agent's stake.
    Stake(u64),
    /// Withdraw the amount from the agent's stake.
    Unstake(u64),
    /// Report (bytes, cost) of metered work against the job.
    Checkpoint(u64, u64),
    /// Settle the job at the given clock reading.
    Settle(u64),
    /// Dispute the job at the given clock reading with an evidence
    /// commitment and a reason.
    Dispute(u64, [u8; 32], String),
    /// Resolve the dispute (favor challenger?, slash amount, clock).
    Resolve(bool, u64, u64),
}

/// The machine-limit side conditions under which the operation's
/// accumulator arithmetic is defined (the executable operations state
/// the same ones as `requires`).
pub open spec fn op_fits(a: Agent, j: Job, op: MarketOp) -> bool {
    match op {
        MarketOp::Stake(amount) => amount > 0 && stake_fits(a, amount),
        MarketOp::Unstake(_) => true,
        MarketOp::Checkpoint(bytes, cost) => checkpoint_fits(j, a, bytes, cost),
        MarketOp::Settle(_) => true,
        MarketOp::Dispute(_, _, _) => a.total_jobs_disputed + 1 <= u64::MAX,
        MarketOp::Resolve(_, _, _) => true,
    }
}

/// One atomic transition of the pair (provider's agent, job): the
/// operation's success outcome if its guard holds, both records
/// unchanged otherwise.
pub open spec fn step(a: Agent, j: Job, op: MarketOp) -> (Agent, Job) {
    if !op_fits(a, j, op) {
        (a, j)
    } else {
        match op {
            MarketOp::Stake(amount) => (staked_agent(a, amount), j),
            MarketOp::Unstake(amount) => if unstake_allowed(a, amount) {
                (unstaked_agent(a, amount), j)
            } else {
                (a, j)
            },
            MarketOp::Checkpoint(bytes, cost) => if checkpoint_allowed(j) {
                (credited_agent(a, cost), checkpointed_job(j, bytes, cost))
            } else {
                (a, j)
            },
            MarketOp::Settle(now) => if settle_allowed(j) {
                (a, settled_job(j, now))
            } else {
                (a, j)
            },
            MarketOp::Dispute(now, evidence, reason) => if dispute_allowed(j, now) {
                (penalized_agent(a), disputed_job(j, now, evidence, reason))
            } else {
                (a, j)
            },
            MarketOp::Resolve(favor_challenger, slash, now) => if j.status != JobStatus::Disputed {
                (a, j)
            } else if favor_challenger {
                if slash_covered(a, slash) {
                    (slashed_agent(a, slash), resolved_job_challenger(j, now))
                } else {
                    (a, j)
                }
            } else {
                (vindicated_agent(a), resolved_job_provider(j, now))
            },
        }
    }
}

/// A whole operation sequence, applied left to right.
pub open spec fn run(a: Agent, j: Job, ops: Seq<MarketOp>) -> (Agent, Job)
    decreases ops.len(),
{
    if ops.len() == 0 {
        (a, j)
    } else {
        let next = step(a, j, ops[0]);
        run(next.0, next.1, ops.drop_first())
    }
}

/// The agent's stake is never negative after any operation sequence.
///
/// The stake lives in a `u64`, so the claim is a typing fact; its
/// substance is that `step` is total over that representation: the two
/// operations that lower the stake (`Unstake`, a challenger-favoring
/// `Resolve`) subtract only behind the guard that the amount is
/// covered, so no transition ever needs a value below zero.
pub proof fn lemma_stake_never_negative(a: Agent, j: Job, ops: Seq<MarketOp>)
    ensures
        run(a, j, ops).0.stake_lamports >= 0,
{
}

/// A single transition never moves the job backwards in its lifecycle.
pub proof fn lemma_step_status_forward(a: Agent, j: Job, op: MarketOp)
    ensures
        status_rank(step(a, j, op).1.status) >= status_rank(j.status),
{
}

/// No operation sequence moves the job backwards in its lifecycle:
/// status transitions are strictly forward.
pub proof fn lemma_run_status_forward(a: Agent, j: Job, ops: Seq<MarketOp>)
    ensures
        status_rank(run(a, j, ops).1.status) >= status_rank(j.status),
    decreases ops.len(),
{
    if ops.len() > 0 {
        let next = step(a, j, ops[0]);
        lemma_step_status_forward(a, j, ops[0]);
        lemma_run_status_forward(next.0, next.1, ops.drop_first());
    }
}

/// A settled job can never return to `InProgress`, whatever operations
/// follow.
pub proof fn lemma_completed_never_reversible(a: Agent, j: Job, ops: Seq<MarketOp>)
    requires
        j.status == JobStatus::Completed,
    ensures
        run(a, j, ops).1.status != JobStatus::InProgress,
{
    lemma_run_status_forward(a, j, ops);
}

/// The two resolved states are terminal: no operation touches the job
/// again.
pub proof fn lemma_resolved_terminal(a: Agent, j: Job, op: MarketOp)
    requires
        status_rank(j.status) == 4,
    ensures
        step(a, j, op).1 == j,
{
}

/// Every transition keeps the job record well-formed: timestamps and
/// dispute evidence are present exactly as far as the lifecycle has
/// advanced.
pub proof fn lemma_step_preserves_wf(a: Agent, j: Job, op: MarketOp)
    requires
        job_wf(j),
    ensures
        job_wf(step(a, j, op).1),
{
}

/// Well-formedness holds after every operation sequence.
pub proof fn lemma_run_preserves_wf(a: Agent, j: Job, ops: Seq<MarketOp>)
    requires
        job_wf(j),
    ensures
        job_wf(run(a, j, ops).1),
    decreases ops.len(),
{
    if ops.len() > 0 {
        let next = step(a, j, ops[0]);
        lemma_step_preserves_wf(a, j, ops[0]);
        lemma_run_preserves_wf(next.0, next.1, ops.drop_first());
    }
}

/// On a well-formed job each timestamp is set at most once:
/// `created_at` never changes, and a populated `completed_at`,
/// `disputed_at` or `resolved_at` (and the dispute evidence) survives
/// every further operation untouched.
pub proof fn lemma_timestamps_write_once(a: Agent, j: Job, op: MarketOp)
    requires
        job_wf(j),
    ensures
        step(a, j, op).1.created_at == j.created_at,
        j.completed_at is Some ==> step(a, j, op).1.completed_at == j.completed_at,
        j.disputed_at is Some ==> step(a, j, op).1.disputed_at == j.disputed_at,
        j.evidence_hash is Some ==> step(a, j, op).1.evidence_hash == j.evidence_hash,
        j.dispute_reason is Some ==> step(a, j, op).1.dispute_reason == j.dispute_reason,
        j.resolved_at is Some ==> step(a, j, op).1.resolved_at == j.resolved_at,
{
}

/// The lifetime counters only ever grow: no transition lowers the
/// agent's completed or disputed counts or its lifetime earnings, nor
/// the job's billed bytes and cost.
pub proof fn lemma_step_monotone_counters(a: Agent, j: Job, op: MarketOp)
    ensures
        step(a, j, op).0.total_jobs_completed >= a.total_jobs_completed,
        step(a, j, op).0.total_jobs_disputed >= a.total_jobs_disputed,
        step(a, j, op).0.total_earnings_lamports >= a.total_earnings_lamports,
        step(a, j, op).1.total_bytes_processed >= j.total_bytes_processed,
        step(a, j, op).1.total_cost_lamports >= j.total_cost_lamports,
{
}

/// Monotonicity of the lifetime counters over whole operation
/// sequences.
pub proof fn lemma_run_monotone_counters(a: Agent, j: Job, ops: Seq<MarketOp>)
    ensures
        run(a, j, ops).0.total_jobs_completed >= a.total_jobs_completed,
        run(a, j, ops).0.total_jobs_disputed >= a.total_jobs_disputed,
        run(a, j, ops).0.total_earnings_lamports >= a.total_earnings_lamports,
        run(a, j, ops).1.total_bytes_processed >= j.total_bytes_processed,
        run(a, j, ops).1.total_cost_lamports >= j.total_cost_lamports,
    decreases ops.len(),
{
    if ops.len() > 0 {
        let next = step(a, j, ops[0]);
        lemma_step_monotone_counters(a, j, ops[0]);
        lemma_run_monotone_counters(next.0, next.1, ops.drop_first());
    }
}

/// Total bytes billed by a batch of checkpoint reports.
pub open spec fn sum_bytes(entries: Seq<(u64, u64)>) -> int
    decreases entries.len(),
{
    if entries.len() == 0 {
        0
    } else {
        entries[0].0 + sum_bytes(entries.drop_first())
    }
}

/// Total cost billed by a batch of checkpoint reports.
pub open spec fn sum_costs(entries: Seq<(u64, u64)>) -> int
    decreases entries.len(),
{
    if entries.len() == 0 {
        0
    } else {
        entries[0].1 + sum_costs(entries.drop_first())
    }
}

/// A job after a batch of successful checkpoint reports, applied in
/// order.
pub open spec fn checkpoint_run(j: Job, entries: Seq<(u64, u64)>) -> Job
    decreases entries.len(),
{
    if entries.len() == 0 {
        j
    } else {
        checkpoint_run(checkpointed_job(j, entries[0].0, entries[0].1), entries.drop_first())
    }
}

pub proof fn lemma_sums_nonneg(entries: Seq<(u64, u64)>)
    ensures
        sum_bytes(entries) >= 0,
        sum_costs(entries) >= 0,
    decreases entries.len(),
{
    if entries.len() > 0 {
        lemma_sums_nonneg(entries.drop_first());
    }
}

/// Checkpointing is idempotent-additive: reporting N checkpoints with
/// costs c1..cN accumulates exactly `totalCost = Σ ci` (and likewise
/// for bytes), and leaves the job `InProgress`.
///
/// A checkpoint mutates only the one job record it names, so
/// checkpoints on other jobs cannot interleave into this total: the
/// executable `checkpoint` takes the job by exclusive reference and
/// its `ensures` speaks of that record alone.
pub proof fn lemma_checkpoint_additive(j: Job, entries: Seq<(u64, u64)>)
    requires
        j.total_bytes_processed + sum_bytes(entries) <= u64::MAX,
        j.total_cost_lamports + sum_costs(entries) <= u64::MAX,
    ensures
        checkpoint_run(j, entries).total_cost_lamports == j.total_cost_lamports + sum_costs(
            entries,
        ),
        checkpoint_run(j, entries).total_bytes_processed == j.total_bytes_processed + sum_bytes(
            entries,
        ),
        entries.len() > 0 ==> checkpoint_run(j, entries).status == JobStatus::InProgress,
    decreases entries.len(),
{
    if entries.len() > 0 {
        lemma_sums_nonneg(entries.drop_first());
        let j1 = checkpointed_job(j, entries[0].0, entries[0].1);
        lemma_checkpoint_additive(j1, entries.drop_first());
    }
}

} // verus!
