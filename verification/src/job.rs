use vstd::prelude::*;

use crate::agent::{apply_reputation_delta, rep_after, Agent};
use crate::errors::ErrorCode;
use crate::identity::key_eq;

verus! {

/// Descriptive job profile. Opaque to the core's rules — stored
/// verbatim, never interpreted.
#[derive(Clone, Debug)]
pub struct JobMetadata {
    pub task_type: String,
    pub task_description: String,
    pub requirements: Vec<String>,
}

/// Lifecycle of a job. Transitions are strictly forward; the two
/// `Resolved*` variants are terminal.
#[derive(Clone, Copy, Debug, PartialEq, Eq, Structural)]
pub enum JobStatus {
    Created,
    InProgress,
    Completed,
    Disputed,
    ResolvedChallenger,
    ResolvedProvider,
}

/// One job record per engagement between a buyer and a provider.
///
/// `total_bytes_processed` and `total_cost_lamports` only ever grow
/// (checkpoints accumulate them); each timestamp is set at most once;
/// `evidence_hash` and `dispute_reason` are populated only on dispute.
#[derive(Clone, Debug)]
pub struct Job {
    pub buyer: [u8; 32],
    pub provider: [u8; 32],
    pub created_slot: u64,
    pub price_cap_lamports: u64,
    pub challenge_window_slots: u64,
    pub metadata: JobMetadata,
    pub status: JobStatus,
    pub total_bytes_processed: u64,
    pub total_cost_lamports: u64,
    pub created_at: u64,
    pub completed_at: Option<u64>,
    pub disputed_at: Option<u64>,
    pub resolved_at: Option<u64>,
    pub evidence_hash: Option<[u8; 32]>,
    pub dispute_reason: Option<String>,
}

/// How far along the lifecycle a status is. Every legal transition
/// strictly raises the rank (see `laws`), so a settled job can never
/// fall back to `InProgress` and a resolved job never moves again.
pub open spec fn status_rank(s: JobStatus) -> int {
    match s {
        JobStatus::Created => 0,
        JobStatus::InProgress => 1,
        JobStatus::Completed => 2,
        JobStatus::Disputed => 3,
        JobStatus::ResolvedChallenger => 4,
        JobStatus::ResolvedProvider => 4,
    }
}

/// Well-formedness of a job record: each timestamp, and the dispute
/// evidence, is populated exactly when the lifecycle has passed the
/// transition that sets it. `fresh_job` establishes this and every
/// transition preserves it (see `laws`), which is what makes each of
/// those fields write-once.
pub open spec fn job_wf(j: Job) -> bool {
    &&& (j.completed_at is Some <==> status_rank(j.status) >= 2)
    &&& (j.disputed_at is Some <==> status_rank(j.status) >= 3)
    &&& (j.evidence_hash is Some <==> status_rank(j.status) >= 3)
    &&& (j.dispute_reason is Some <==> status_rank(j.status) >= 3)
    &&& (j.resolved_at is Some <==> status_rank(j.status) == 4)
}

/// Checkpoints are accepted while the job is open: `Created` and
/// `InProgress` are equivalent pre-settlement states for this purpose.
pub open spec fn checkpoint_allowed(j: Job) -> bool {
    j.status == JobStatus::Created || j.status == JobStatus::InProgress
}

/// A checkpoint must be reported by the job's provider, against that
/// provider's own agent record.
pub open spec fn checkpoint_authorized(j: Job, a: Agent, provider: [u8; 32]) -> bool {
    provider@ == j.provider@ && a.authority@ == j.provider@
}

/// The checkpoint's accumulator updates must not overflow.
pub open spec fn checkpoint_fits(j: Job, a: Agent, bytes: u64, cost: u64) -> bool {
    &&& j.total_bytes_processed + bytes <= u64::MAX
    &&& j.total_cost_lamports + cost <= u64::MAX
    &&& a.total_earnings_lamports + cost <= u64::MAX
    &&& a.total_jobs_completed + 1 <= u64::MAX
}

/// The job as it stands after a successful checkpoint.
pub open spec fn checkpointed_job(j: Job, bytes: u64, cost: u64) -> Job {
    Job {
        status: JobStatus::InProgress,
        total_bytes_processed: (j.total_bytes_processed + bytes) as u64,
        total_cost_lamports: (j.total_cost_lamports + cost) as u64,
        ..j
    }
}

/// The provider's agent record after a successful checkpoint: one
/// reputation point earned, one more completed unit, the billed cost
/// added to lifetime earnings.
pub open spec fn credited_agent(a: Agent, cost: u64) -> Agent {
    Agent {
        reputation_score: rep_after(a.reputation_score, 1),
        total_jobs_completed: (a.total_jobs_completed + 1) as u64,
        total_earnings_lamports: (a.total_earnings_lamports + cost) as u64,
        ..a
    }
}

/// Settlement is the sole enforcement point of the price cap: it is
/// legal exactly when the job is in progress and the accumulated cost
/// stayed within what the buyer authorized.
pub open spec fn settle_allowed(j: Job) -> bool {
    j.status == JobStatus::InProgress && j.total_cost_lamports <= j.price_cap_lamports
}

/// The job as it stands after a successful settlement.
pub open spec fn settled_job(j: Job, now: u64) -> Job {
    Job { status: JobStatus::Completed, completed_at: Some(now), ..j }
}

/// A completed job may be disputed until the challenge window closes:
/// `now <= created_at + challenge_window_slots` (exact arithmetic, no
/// wrap-around).
pub open spec fn window_open(j: Job, now: u64) -> bool {
    now <= j.created_at + j.challenge_window_slots
}

/// The business guard for raising a dispute.
pub open spec fn dispute_allowed(j: Job, now: u64) -> bool {
    j.status == JobStatus::Completed && window_open(j, now)
}

/// A dispute must be filed against the job provider's own agent
/// record; the challenger itself is unconstrained.
pub open spec fn provider_record_bound(j: Job, a: Agent) -> bool {
    a.authority@ == j.provider@
}

/// The job as it stands after a successful dispute: the evidence
/// commitment and reason are stored verbatim.
pub open spec fn disputed_job(j: Job, now: u64, evidence: [u8; 32], reason: String) -> Job {
    Job {
        status: JobStatus::Disputed,
        disputed_at: Some(now),
        evidence_hash: Some(evidence),
        dispute_reason: Some(reason),
        ..j
    }
}

/// The provider's agent record after its job was disputed: ten
/// reputation points lost (saturating at zero), the dispute counter up
/// by one.
pub open spec fn penalized_agent(a: Agent) -> Agent {
    Agent {
        reputation_score: rep_after(a.reputation_score, -10),
        total_jobs_disputed: (a.total_jobs_disputed + 1) as u64,
        ..a
    }
}

/// A brand-new job record: cap, window and profile stored verbatim,
/// both accumulators zero, status `Created`.
pub open spec fn fresh_job(
    buyer: [u8; 32],
    provider: [u8; 32],
    job_metadata: JobMetadata,
    price_cap_lamports: u64,
    challenge_window_slots: u64,
    now: u64,
) -> Job {
    Job {
        buyer,
        provider,
        created_slot: now,
        price_cap_lamports,
        challenge_window_slots,
        metadata: job_metadata,
        status: JobStatus::Created,
        total_bytes_processed: 0,
        total_cost_lamports: 0,
        created_at: now,
        completed_at: None,
        disputed_at: None,
        resolved_at: None,
        evidence_hash: None,
        dispute_reason: None,
    }
}

/// Creates a fresh job record for the (buyer, provider) pair: cap,
/// window and profile stored verbatim, both accumulators zero, status
/// `Created`, created at the supplied clock reading.
///
/// The host's record-addressing layer (see `registry`) guarantees at
/// most one live record per (buyer, provider) pair.
pub fn create_job(
    buyer: [u8; 32],
    provider: [u8; 32],
    job_metadata: JobMetadata,
    price_cap_lamports: u64,
    challenge_window_slots: u64,
    now: u64,
) -> (job: Job)
    ensures
        job == fresh_job(
            buyer,
            provider,
            job_metadata,
            price_cap_lamports,
            challenge_window_slots,
            now,
        ),
        job.buyer@ == buyer@,
        job.provider@ == provider@,
        job.created_slot == now,
        job.price_cap_lamports == price_cap_lamports,
        job.challenge_window_slots == challenge_window_slots,
        job.metadata == job_metadata,
        job.status == JobStatus::Created,
        job.total_bytes_processed == 0,
        job.total_cost_lamports == 0,
        job.created_at == now,
        job.completed_at is None,
        job.disputed_at is None,
        job.resolved_at is None,
        job.evidence_hash is None,
        job.dispute_reason is None,
        job_wf(job),
{
    Job {
        buyer,
        provider,
        created_slot: now,
        price_cap_lamports,
        challenge_window_slots,
        metadata: job_metadata,
        status: JobStatus::Created,
        total_bytes_processed: 0,
        total_cost_lamports: 0,
        created_at: now,
        completed_at: None,
        disputed_at: None,
        resolved_at: None,
        evidence_hash: None,
        dispute_reason: None,
    }
}

/// Records one unit of metered work against an open job and credits
/// the provider's agent.
///
/// The checkpoint hash is an opaque 32-byte commitment supplied by the
/// provider; the core does not interpret it. Deliberate late-check
/// policy: the cost is *not* validated against remaining cap headroom
/// here — `totalCost` may run past the cap during checkpointing, and
/// only settlement enforces it.
pub fn checkpoint(
    job: &mut Job,
    agent: &mut Agent,
    provider: [u8; 32],
    _checkpoint_hash: [u8; 32],
    bytes: u64,
    cost_lamports: u64,
) -> (r: Result<(), ErrorCode>)
    requires
        checkpoint_authorized(*old(job), *old(agent), provider) && checkpoint_allowed(*old(job))
            ==> checkpoint_fits(*old(job), *old(agent), bytes, cost_lamports),
    ensures
        r is Ok <==> checkpoint_authorized(*old(job), *old(agent), provider)
            && checkpoint_allowed(*old(job)),
        r is Ok ==> *final(job) == checkpointed_job(*old(job), bytes, cost_lamports)
            && *final(agent) == credited_agent(*old(agent), cost_lamports),
        r is Err ==> *final(job) == *old(job) && *final(agent) == *old(agent),
        !checkpoint_authorized(*old(job), *old(agent), provider) ==> r == Err::<(), ErrorCode>(
            ErrorCode::Unauthorized,
        ),
        checkpoint_authorized(*old(job), *old(agent), provider) && !checkpoint_allowed(*old(job))
            ==> r == Err::<(), ErrorCode>(ErrorCode::InvalidJobStatus),
{
    if !key_eq(&provider, &job.provider) || !key_eq(&agent.authority, &job.provider) {
        return Err(ErrorCode::Unauthorized);
    }
    if !(job.status == JobStatus::Created || job.status == JobStatus::InProgress) {
        return Err(ErrorCode::InvalidJobStatus);
    }
    job.status = JobStatus::InProgress;
    job.total_bytes_processed = job.total_bytes_processed + bytes;
    job.total_cost_lamports = job.total_cost_lamports + cost_lamports;
    apply_reputation_delta(agent, 1);
    agent.total_jobs_completed = agent.total_jobs_completed + 1;
    agent.total_earnings_lamports = agent.total_earnings_lamports + cost_lamports;
    Ok(())
}

/// Settles an in-progress job under the price cap, marking it
/// `Completed` at the supplied clock reading.
///
/// Succeeds exactly when the caller is the job's buyer, the job is
/// `InProgress`, and `totalCost <= priceCap`; otherwise the specific
/// error fires and the record is unchanged.
pub fn settle(job: &mut Job, buyer: [u8; 32], now: u64) -> (r: Result<(), ErrorCode>)
    ensures
        r is Ok <==> buyer@ == old(job).buyer@ && settle_allowed(*old(job)),
        r is Ok ==> *final(job) == settled_job(*old(job), now),
        r is Err ==> *final(job) == *old(job),
        buyer@ != old(job).buyer@ ==> r == Err::<(), ErrorCode>(ErrorCode::Unauthorized),
        buyer@ == old(job).buyer@ && old(job).status != JobStatus::InProgress ==> r == Err::<
            (),
            ErrorCode,
        >(ErrorCode::InvalidJobStatus),
        buyer@ == old(job).buyer@ && old(job).status == JobStatus::InProgress
            && old(job).total_cost_lamports > old(job).price_cap_lamports ==> r == Err::<
            (),
            ErrorCode,
        >(ErrorCode::PriceCapExceeded),
{
    if !key_eq(&buyer, &job.buyer) {
        return Err(ErrorCode::Unauthorized);
    }
    if job.status != JobStatus::InProgress {
        return Err(ErrorCode::InvalidJobStatus);
    }
    if job.total_cost_lamports > job.price_cap_lamports {
        return Err(ErrorCode::PriceCapExceeded);
    }
    job.status = JobStatus::Completed;
    job.completed_at = Some(now);
    Ok(())
}

/// Raises a dispute against a completed job inside its challenge
/// window, storing the evidence commitment and reason, and penalizes
/// the provider's agent.
///
/// Succeeds exactly when the supplied agent record belongs to the
/// job's provider, the job is `Completed`, and
/// `now <= created_at + challenge_window_slots`; otherwise the
/// specific error fires and both records are unchanged. Any
/// authenticated caller may act as the challenger.
pub fn dispute(
    job: &mut Job,
    agent: &mut Agent,
    evidence_hash: [u8; 32],
    reason: String,
    now: u64,
) -> (r: Result<(), ErrorCode>)
    requires
        provider_record_bound(*old(job), *old(agent)) && dispute_allowed(*old(job), now)
            ==> old(agent).total_jobs_disputed + 1 <= u64::MAX,
    ensures
        r is Ok <==> provider_record_bound(*old(job), *old(agent)) && dispute_allowed(
            *old(job),
            now,
        ),
        r is Ok ==> *final(job) == disputed_job(*old(job), now, evidence_hash, reason)
            && *final(agent) == penalized_agent(*old(agent)),
        r is Err ==> *final(job) == *old(job) && *final(agent) == *old(agent),
        !provider_record_bound(*old(job), *old(agent)) ==> r == Err::<(), ErrorCode>(
            ErrorCode::Unauthorized,
        ),
        provider_record_bound(*old(job), *old(agent)) && old(job).status != JobStatus::Completed
            ==> r == Err::<(), ErrorCode>(ErrorCode::InvalidJobStatus),
        provider_record_bound(*old(job), *old(agent)) && old(job).status == JobStatus::Completed
            && !window_open(*old(job), now) ==> r == Err::<(), ErrorCode>(
            ErrorCode::ChallengeWindowExpired,
        ),
{
    if !key_eq(&agent.authority, &job.provider) {
        return Err(ErrorCode::Unauthorized);
    }
    if job.status != JobStatus::Completed {
        return Err(ErrorCode::InvalidJobStatus);
    }
    let still_open: bool = if now < job.created_at {
        true
    } else {
        now - job.created_at <= job.challenge_window_slots
    };
    if !still_open {
        return Err(ErrorCode::ChallengeWindowExpired);
    }
    job.status = JobStatus::Disputed;
    job.disputed_at = Some(now);
    job.evidence_hash = Some(evidence_hash);
    job.dispute_reason = Some(reason);
    apply_reputation_delta(agent, -10);
    agent.total_jobs_disputed = agent.total_jobs_disputed + 1;
    Ok(())
}

} // verus!
