use vstd::prelude::*;

use crate::agent::{apply_reputation_delta, rep_after, Agent};
use crate::errors::ErrorCode;
use crate::identity::key_eq;
use crate::job::{provider_record_bound, Job, JobStatus};

verus! {

/// A slash may only forfeit what the provider actually has at stake.
pub open spec fn slash_covered(a: Agent, slash: u64) -> bool {
    slash <= a.stake_lamports
}

/// The provider's agent record after losing a dispute: the slashed
/// amount leaves the stake and twenty reputation points are lost
/// (saturating at zero).
pub open spec fn slashed_agent(a: Agent, slash: u64) -> Agent {
    Agent {
        stake_lamports: (a.stake_lamports - slash) as u64,
        reputation_score: rep_after(a.reputation_score, -20),
        ..a
    }
}

/// The provider's agent record after a successful defense: five
/// reputation points earned.
pub open spec fn vindicated_agent(a: Agent) -> Agent {
    Agent { reputation_score: rep_after(a.reputation_score, 5), ..a }
}

/// The job after a resolution in the challenger's favor.
pub open spec fn resolved_job_challenger(j: Job, now: u64) -> Job {
    Job { status: JobStatus::ResolvedChallenger, resolved_at: Some(now), ..j }
}

/// The job after a resolution in the provider's favor.
pub open spec fn resolved_job_provider(j: Job, now: u64) -> Job {
    Job { status: JobStatus::ResolvedProvider, resolved_at: Some(now), ..j }
}

/// Resolves a disputed job, at the supplied clock reading, in favor of
/// either the challenger or the provider. Both outcomes are terminal.
///
/// Favoring the challenger requires the provider's stake to cover the
/// slash (else `InsufficientStake`, with stake, reputation, and job
/// status all unchanged); on success the slash leaves the stake, the
/// provider loses twenty reputation points, and the host moves the
/// slashed amount from custody to the challenger within the same
/// atomic transaction. Favoring the provider moves no funds and earns
/// the provider five reputation points.
///
/// The resolving party is deliberately unconstrained here, exactly as
/// in the rules this core enforces: any authenticated caller may
/// arbitrate any dispute. That is a trust gap worth flagging to
/// integrators, not a mechanism this module can tighten on its own.
pub fn resolve_dispute(
    job: &mut Job,
    provider_agent: &mut Agent,
    in_favor_of_challenger: bool,
    slash_amount_lamports: u64,
    now: u64,
) -> (r: Result<(), ErrorCode>)
    ensures
        r is Ok <==> provider_record_bound(*old(job), *old(provider_agent)) && old(job).status
            == JobStatus::Disputed && (in_favor_of_challenger ==> slash_covered(
            *old(provider_agent),
            slash_amount_lamports,
        )),
        r is Ok && in_favor_of_challenger ==> *final(job) == resolved_job_challenger(
            *old(job),
            now,
        ) && *final(provider_agent) == slashed_agent(*old(provider_agent), slash_amount_lamports),
        r is Ok && !in_favor_of_challenger ==> *final(job) == resolved_job_provider(*old(job), now)
            && *final(provider_agent) == vindicated_agent(*old(provider_agent)),
        r is Err ==> *final(job) == *old(job) && *final(provider_agent) == *old(provider_agent),
        !provider_record_bound(*old(job), *old(provider_agent)) ==> r == Err::<(), ErrorCode>(
            ErrorCode::Unauthorized,
        ),
        provider_record_bound(*old(job), *old(provider_agent)) && old(job).status
            != JobStatus::Disputed ==> r == Err::<(), ErrorCode>(ErrorCode::InvalidJobStatus),
        provider_record_bound(*old(job), *old(provider_agent)) && old(job).status
            == JobStatus::Disputed && in_favor_of_challenger && !slash_covered(
            *old(provider_agent),
            slash_amount_lamports,
        ) ==> r == Err::<(), ErrorCode>(ErrorCode::InsufficientStake),
{
    if !key_eq(&provider_agent.authority, &job.provider) {
        return Err(ErrorCode::Unauthorized);
    }
    if job.status != JobStatus::Disputed {
        return Err(ErrorCode::InvalidJobStatus);
    }
    if in_favor_of_challenger {
        if provider_agent.stake_lamports < slash_amount_lamports {
            return Err(ErrorCode::InsufficientStake);
        }
        provider_agent.stake_lamports = provider_agent.stake_lamports - slash_amount_lamports;
        apply_reputation_delta(provider_agent, -20);
        job.status = JobStatus::ResolvedChallenger;
    } else {
        apply_reputation_delta(provider_agent, 5);
        job.status = JobStatus::ResolvedProvider;
    }
    job.resolved_at = Some(now);
    Ok(())
}

} // verus!
