use vstd::prelude::*;

use crate::errors::ErrorCode;
use crate::identity::key_eq;

verus! {

/// Descriptive profile of an agent: name, description, capability
/// tags, version. Opaque to the core's rules — stored verbatim, never
/// interpreted.
#[derive(Clone, Debug)]
pub struct AgentMetadata {
    pub name: String,
    pub description: String,
    pub specialization: Vec<String>,
    pub version: String,
}

/// One agent record per authority identity.
///
/// `stake_lamports` is the bond held in custody on the agent's behalf;
/// it is a `u64`, so it can never go negative, and every operation that
/// lowers it first proves the subtraction cannot underflow.
/// `total_jobs_completed`, `total_jobs_disputed` and
/// `total_earnings_lamports` only ever grow.
#[derive(Clone, Debug)]
pub struct Agent {
    pub authority: [u8; 32],
    pub stake_lamports: u64,
    pub reputation_score: u64,
    pub total_jobs_completed: u64,
    pub total_jobs_disputed: u64,
    pub total_earnings_lamports: u64,
    pub metadata: AgentMetadata,
    pub registered_at: u64,
}

/// Every agent starts with a neutral reputation score.
pub const INITIAL_REPUTATION: u64 = 100;

/// Reputation after applying a (possibly negative) delta: the score
/// saturates at the bounds of its representation instead of wrapping
/// or erroring, so it never goes negative and never overflows.
pub open spec fn rep_after(rep: u64, delta: int) -> u64 {
    if rep + delta < 0 {
        0u64
    } else if rep + delta > u64::MAX {
        u64::MAX
    } else {
        (rep + delta) as u64
    }
}

/// The agent as it stands after a successful stake deposit.
pub open spec fn staked_agent(a: Agent, amount: u64) -> Agent {
    Agent { stake_lamports: (a.stake_lamports + amount) as u64, ..a }
}

/// The agent as it stands after a successful stake withdrawal.
pub open spec fn unstaked_agent(a: Agent, amount: u64) -> Agent {
    Agent { stake_lamports: (a.stake_lamports - amount) as u64, ..a }
}

/// The business guard for withdrawing stake: the amount must be
/// covered, and an agent with any historical dispute may never
/// withdraw.
pub open spec fn unstake_allowed(a: Agent, amount: u64) -> bool {
    amount <= a.stake_lamports && a.total_jobs_disputed == 0
}

/// The deposit must not overflow the stake accumulator.
pub open spec fn stake_fits(a: Agent, amount: u64) -> bool {
    a.stake_lamports + amount <= u64::MAX
}

/// A brand-new agent record: zero stake, neutral reputation, all
/// counters zero, the profile stored verbatim.
pub open spec fn fresh_agent(authority: [u8; 32], metadata: AgentMetadata, now: u64) -> Agent {
    Agent {
        authority,
        stake_lamports: 0,
        reputation_score: INITIAL_REPUTATION,
        total_jobs_completed: 0,
        total_jobs_disputed: 0,
        total_earnings_lamports: 0,
        metadata,
        registered_at: now,
    }
}

/// Creates a fresh agent record for `authority`: zero stake, neutral
/// reputation, all counters zero, the profile stored verbatim,
/// registered at the supplied clock reading.
///
/// The host's record-addressing layer (see `registry`) guarantees at
/// most one live record per authority.
pub fn register_agent(authority: [u8; 32], metadata: AgentMetadata, now: u64) -> (agent: Agent)
    ensures
        agent == fresh_agent(authority, metadata, now),
        agent.authority@ == authority@,
        agent.stake_lamports == 0,
        agent.reputation_score == INITIAL_REPUTATION,
        agent.total_jobs_completed == 0,
        agent.total_jobs_disputed == 0,
        agent.total_earnings_lamports == 0,
        agent.metadata == metadata,
        agent.registered_at == now,
{
    Agent {
        authority,
        stake_lamports: 0,
        reputation_score: INITIAL_REPUTATION,
        total_jobs_completed: 0,
        total_jobs_disputed: 0,
        total_earnings_lamports: 0,
        metadata,
        registered_at: now,
    }
}

/// Deposits `amount_lamports` into the agent's stake.
///
/// The host moves the same amount from the authority's balance into
/// custody within the same atomic transaction; a custodian failure
/// aborts the transaction before this record mutation is committed.
pub fn stake_agent(agent: &mut Agent, authority: [u8; 32], amount_lamports: u64) -> (r: Result<
    (),
    ErrorCode,
>)
    requires
        amount_lamports > 0,
        authority@ == old(agent).authority@ ==> stake_fits(*old(agent), amount_lamports),
    ensures
        r is Ok <==> authority@ == old(agent).authority@,
        r is Ok ==> *final(agent) == staked_agent(*old(agent), amount_lamports),
        r is Err ==> r == Err::<(), ErrorCode>(ErrorCode::Unauthorized) && *final(agent) == *old(
            agent,
        ),
{
    if !key_eq(&authority, &agent.authority) {
        return Err(ErrorCode::Unauthorized);
    }
    agent.stake_lamports = agent.stake_lamports + amount_lamports;
    Ok(())
}

/// Withdraws `amount_lamports` from the agent's stake.
///
/// Succeeds exactly when the caller is the agent's authority, the
/// amount is covered by the current stake, and the agent has no
/// historical dispute; otherwise the specific error fires and the
/// record is unchanged. On success the host returns the amount from
/// custody to the authority within the same atomic transaction.
pub fn unstake_agent(agent: &mut Agent, authority: [u8; 32], amount_lamports: u64) -> (r: Result<
    (),
    ErrorCode,
>)
    ensures
        r is Ok <==> authority@ == old(agent).authority@ && unstake_allowed(
            *old(agent),
            amount_lamports,
        ),
        r is Ok ==> *final(agent) == unstaked_agent(*old(agent), amount_lamports),
        r is Err ==> *final(agent) == *old(agent),
        authority@ != old(agent).authority@ ==> r == Err::<(), ErrorCode>(ErrorCode::Unauthorized),
        authority@ == old(agent).authority@ && amount_lamports > old(agent).stake_lamports ==> r
            == Err::<(), ErrorCode>(ErrorCode::InsufficientStake),
        authority@ == old(agent).authority@ && amount_lamports <= old(agent).stake_lamports && old(
            agent,
        ).total_jobs_disputed != 0 ==> r == Err::<(), ErrorCode>(ErrorCode::HasPendingDisputes),
{
    if !key_eq(&authority, &agent.authority) {
        return Err(ErrorCode::Unauthorized);
    }
    if agent.stake_lamports < amount_lamports {
        return Err(ErrorCode::InsufficientStake);
    }
    if agent.total_jobs_disputed != 0 {
        return Err(ErrorCode::HasPendingDisputes);
    }
    agent.stake_lamports = agent.stake_lamports - amount_lamports;
    Ok(())
}

/// Adjusts the agent's reputation score by `delta`, saturating at the
/// bounds of the representation: the score never goes negative and
/// never overflows.
pub fn apply_reputation_delta(agent: &mut Agent, delta: i64)
    ensures
        *final(agent) == (Agent {
            reputation_score: rep_after(old(agent).reputation_score, delta as int),
            ..*old(agent)
        }),
{
    if delta >= 0 {
        let d = delta as u64;
        if agent.reputation_score <= u64::MAX - d {
            agent.reputation_score = agent.reputation_score + d;
        } else {
            agent.reputation_score = u64::MAX;
        }
    } else {
        let d: u64 = if delta == i64::MIN {
            9223372036854775808u64
        } else {
            (-delta) as u64
        };
        if agent.reputation_score >= d {
            agent.reputation_score = agent.reputation_score - d;
        } else {
            agent.reputation_score = 0;
        }
    }
}

} // verus!
