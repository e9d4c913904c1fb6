use sentinel::agent::{apply_reputation_delta, register_agent, stake_agent, unstake_agent, Agent, AgentMetadata};
use sentinel::errors::ErrorCode;
use sentinel::job::{checkpoint, create_job, dispute, settle, JobMetadata, JobStatus};
use sentinel::resolve::resolve_dispute;

fn key(b: u8) -> [u8; 32] {
    [b; 32]
}

fn meta() -> AgentMetadata {
    AgentMetadata {
        name: "alpha".to_string(),
        description: "scrapes and summarizes".to_string(),
        specialization: vec!["scraping".to_string(), "summarization".to_string()],
        version: "1.0".to_string(),
    }
}

fn job_meta() -> JobMetadata {
    JobMetadata {
        task_type: "scraping".to_string(),
        task_description: "crawl the catalog".to_string(),
        requirements: vec!["robots.txt".to_string()],
    }
}

fn staked_provider(authority: [u8; 32], stake: u64) -> Agent {
    let mut agent = register_agent(authority, meta(), 1);
    stake_agent(&mut agent, authority, stake).unwrap();
    agent
}

#[test]
fn register_initializes_record() {
    let agent = register_agent(key(1), meta(), 42);
    assert_eq!(agent.authority, key(1));
    assert_eq!(agent.stake_lamports, 0);
    assert_eq!(agent.reputation_score, 100);
    assert_eq!(agent.total_jobs_completed, 0);
    assert_eq!(agent.total_jobs_disputed, 0);
    assert_eq!(agent.total_earnings_lamports, 0);
    assert_eq!(agent.registered_at, 42);
    assert_eq!(agent.metadata.name, "alpha");
    assert_eq!(agent.metadata.specialization.len(), 2);
}

#[test]
fn stake_accumulates() {
    let mut agent = register_agent(key(1), meta(), 1);
    assert_eq!(stake_agent(&mut agent, key(1), 600), Ok(()));
    assert_eq!(stake_agent(&mut agent, key(1), 400), Ok(()));
    assert_eq!(agent.stake_lamports, 1000);
}

#[test]
fn stake_rejects_wrong_authority() {
    let mut agent = register_agent(key(1), meta(), 1);
    assert_eq!(stake_agent(&mut agent, key(9), 600), Err(ErrorCode::Unauthorized));
    assert_eq!(agent.stake_lamports, 0);
}

#[test]
fn unstake_succeeds_when_covered_and_undisputed() {
    let mut agent = staked_provider(key(1), 1000);
    assert_eq!(unstake_agent(&mut agent, key(1), 400), Ok(()));
    assert_eq!(agent.stake_lamports, 600);
    assert_eq!(agent.reputation_score, 100);
}

#[test]
fn unstake_beyond_stake_fails_unchanged() {
    let mut agent = staked_provider(key(1), 300);
    assert_eq!(unstake_agent(&mut agent, key(1), 301), Err(ErrorCode::InsufficientStake));
    assert_eq!(agent.stake_lamports, 300);
    assert_eq!(agent.total_jobs_disputed, 0);
}

#[test]
fn unstake_with_historical_dispute_fails_unchanged() {
    let mut agent = staked_provider(key(1), 300);
    agent.total_jobs_disputed = 1;
    assert_eq!(unstake_agent(&mut agent, key(1), 100), Err(ErrorCode::HasPendingDisputes));
    assert_eq!(agent.stake_lamports, 300);
    assert_eq!(agent.total_jobs_disputed, 1);
}

#[test]
fn unstake_rejects_wrong_authority() {
    let mut agent = staked_provider(key(1), 300);
    assert_eq!(unstake_agent(&mut agent, key(2), 100), Err(ErrorCode::Unauthorized));
    assert_eq!(agent.stake_lamports, 300);
}

#[test]
fn unstake_insufficient_reported_before_disputes() {
    let mut agent = staked_provider(key(1), 300);
    agent.total_jobs_disputed = 2;
    assert_eq!(unstake_agent(&mut agent, key(1), 500), Err(ErrorCode::InsufficientStake));
}

#[test]
fn create_job_initializes_record() {
    let job = create_job(key(2), key(1), job_meta(), 500, 100, 10);
    assert_eq!(job.buyer, key(2));
    assert_eq!(job.provider, key(1));
    assert_eq!(job.status, JobStatus::Created);
    assert_eq!(job.price_cap_lamports, 500);
    assert_eq!(job.challenge_window_slots, 100);
    assert_eq!(job.total_bytes_processed, 0);
    assert_eq!(job.total_cost_lamports, 0);
    assert_eq!(job.created_at, 10);
    assert_eq!(job.created_slot, 10);
    assert_eq!(job.completed_at, None);
    assert_eq!(job.disputed_at, None);
    assert_eq!(job.resolved_at, None);
    assert_eq!(job.evidence_hash, None);
    assert_eq!(job.dispute_reason, None);
}

#[test]
fn checkpoint_accumulates_and_credits_provider() {
    let mut agent = staked_provider(key(1), 1000);
    let mut job = create_job(key(2), key(1), job_meta(), 500, 100, 10);
    assert_eq!(checkpoint(&mut job, &mut agent, key(1), [7; 32], 10, 200), Ok(()));
    assert_eq!(job.status, JobStatus::InProgress);
    assert_eq!(checkpoint(&mut job, &mut agent, key(1), [8; 32], 15, 150), Ok(()));
    assert_eq!(job.total_bytes_processed, 25);
    assert_eq!(job.total_cost_lamports, 350);
    assert_eq!(agent.reputation_score, 102);
    assert_eq!(agent.total_jobs_completed, 2);
    assert_eq!(agent.total_earnings_lamports, 350);
}

#[test]
fn checkpoints_on_other_jobs_do_not_interleave() {
    let mut agent_a = staked_provider(key(1), 1000);
    let mut agent_b = staked_provider(key(3), 1000);
    let mut job_a = create_job(key(2), key(1), job_meta(), 500, 100, 10);
    let mut job_b = create_job(key(2), key(3), job_meta(), 900, 100, 10);
    assert_eq!(checkpoint(&mut job_a, &mut agent_a, key(1), [0; 32], 1, 100), Ok(()));
    assert_eq!(checkpoint(&mut job_b, &mut agent_b, key(3), [0; 32], 2, 700), Ok(()));
    assert_eq!(checkpoint(&mut job_a, &mut agent_a, key(1), [0; 32], 3, 50), Ok(()));
    assert_eq!(job_a.total_cost_lamports, 150);
    assert_eq!(job_a.total_bytes_processed, 4);
    assert_eq!(job_b.total_cost_lamports, 700);
    assert_eq!(job_b.total_bytes_processed, 2);
}

#[test]
fn checkpoint_may_run_past_the_cap() {
    let mut agent = staked_provider(key(1), 1000);
    let mut job = create_job(key(2), key(1), job_meta(), 500, 100, 10);
    assert_eq!(checkpoint(&mut job, &mut agent, key(1), [0; 32], 10, 400), Ok(()));
    assert_eq!(checkpoint(&mut job, &mut agent, key(1), [0; 32], 10, 400), Ok(()));
    assert_eq!(job.total_cost_lamports, 800);
    assert_eq!(job.status, JobStatus::InProgress);
}

#[test]
fn checkpoint_rejects_wrong_provider() {
    let mut agent = staked_provider(key(1), 1000);
    let mut job = create_job(key(2), key(1), job_meta(), 500, 100, 10);
    assert_eq!(
        checkpoint(&mut job, &mut agent, key(9), [0; 32], 10, 200),
        Err(ErrorCode::Unauthorized)
    );
    assert_eq!(job.total_cost_lamports, 0);
    assert_eq!(agent.total_jobs_completed, 0);
}

#[test]
fn checkpoint_rejects_foreign_agent_record() {
    let mut stranger = staked_provider(key(9), 1000);
    let mut job = create_job(key(2), key(1), job_meta(), 500, 100, 10);
    assert_eq!(
        checkpoint(&mut job, &mut stranger, key(1), [0; 32], 10, 200),
        Err(ErrorCode::Unauthorized)
    );
    assert_eq!(job.status, JobStatus::Created);
}

#[test]
fn checkpoint_rejects_settled_job() {
    let mut agent = staked_provider(key(1), 1000);
    let mut job = create_job(key(2), key(1), job_meta(), 500, 100, 10);
    assert_eq!(checkpoint(&mut job, &mut agent, key(1), [0; 32], 10, 200), Ok(()));
    assert_eq!(settle(&mut job, key(2), 20), Ok(()));
    assert_eq!(
        checkpoint(&mut job, &mut agent, key(1), [0; 32], 10, 200),
        Err(ErrorCode::InvalidJobStatus)
    );
    assert_eq!(job.total_cost_lamports, 200);
}

#[test]
fn settle_within_cap_completes() {
    let mut agent = staked_provider(key(1), 1000);
    let mut job = create_job(key(2), key(1), job_meta(), 500, 100, 10);
    assert_eq!(checkpoint(&mut job, &mut agent, key(1), [0; 32], 10, 500), Ok(()));
    assert_eq!(settle(&mut job, key(2), 30), Ok(()));
    assert_eq!(job.status, JobStatus::Completed);
    assert_eq!(job.completed_at, Some(30));
}

#[test]
fn settle_over_cap_fails_unchanged() {
    let mut agent = staked_provider(key(1), 1000);
    let mut job = create_job(key(2), key(1), job_meta(), 500, 100, 10);
    assert_eq!(checkpoint(&mut job, &mut agent, key(1), [0; 32], 10, 501), Ok(()));
    assert_eq!(settle(&mut job, key(2), 30), Err(ErrorCode::PriceCapExceeded));
    assert_eq!(job.status, JobStatus::InProgress);
    assert_eq!(job.completed_at, None);
}

#[test]
fn settle_rejects_job_not_in_progress() {
    let mut job = create_job(key(2), key(1), job_meta(), 500, 100, 10);
    assert_eq!(settle(&mut job, key(2), 30), Err(ErrorCode::InvalidJobStatus));
    assert_eq!(job.status, JobStatus::Created);
}

#[test]
fn settle_rejects_wrong_buyer() {
    let mut agent = staked_provider(key(1), 1000);
    let mut job = create_job(key(2), key(1), job_meta(), 500, 100, 10);
    assert_eq!(checkpoint(&mut job, &mut agent, key(1), [0; 32], 10, 100), Ok(()));
    assert_eq!(settle(&mut job, key(1), 30), Err(ErrorCode::Unauthorized));
    assert_eq!(job.status, JobStatus::InProgress);
}

#[test]
fn dispute_inside_window_penalizes_provider() {
    let mut agent = staked_provider(key(1), 1000);
    let mut job = create_job(key(2), key(1), job_meta(), 500, 100, 10);
    assert_eq!(checkpoint(&mut job, &mut agent, key(1), [0; 32], 10, 100), Ok(()));
    assert_eq!(settle(&mut job, key(2), 30), Ok(()));
    assert_eq!(
        dispute(&mut job, &mut agent, [5; 32], "bad output".to_string(), 60),
        Ok(())
    );
    assert_eq!(job.status, JobStatus::Disputed);
    assert_eq!(job.disputed_at, Some(60));
    assert_eq!(job.evidence_hash, Some([5; 32]));
    assert_eq!(job.dispute_reason, Some("bad output".to_string()));
    assert_eq!(agent.reputation_score, 91);
    assert_eq!(agent.total_jobs_disputed, 1);
}

#[test]
fn dispute_at_window_boundary_succeeds() {
    let mut agent = staked_provider(key(1), 1000);
    let mut job = create_job(key(2), key(1), job_meta(), 500, 100, 10);
    assert_eq!(checkpoint(&mut job, &mut agent, key(1), [0; 32], 10, 100), Ok(()));
    assert_eq!(settle(&mut job, key(2), 30), Ok(()));
    assert_eq!(dispute(&mut job, &mut agent, [5; 32], "late".to_string(), 110), Ok(()));
    assert_eq!(job.status, JobStatus::Disputed);
}

#[test]
fn dispute_after_window_fails_unchanged() {
    let mut agent = staked_provider(key(1), 1000);
    let mut job = create_job(key(2), key(1), job_meta(), 500, 100, 10);
    assert_eq!(checkpoint(&mut job, &mut agent, key(1), [0; 32], 10, 100), Ok(()));
    assert_eq!(settle(&mut job, key(2), 30), Ok(()));
    assert_eq!(
        dispute(&mut job, &mut agent, [5; 32], "late".to_string(), 111),
        Err(ErrorCode::ChallengeWindowExpired)
    );
    assert_eq!(job.status, JobStatus::Completed);
    assert_eq!(job.disputed_at, None);
    assert_eq!(agent.reputation_score, 101);
    assert_eq!(agent.total_jobs_disputed, 0);
}

#[test]
fn dispute_rejects_unsettled_job() {
    let mut agent = staked_provider(key(1), 1000);
    let mut job = create_job(key(2), key(1), job_meta(), 500, 100, 10);
    assert_eq!(
        dispute(&mut job, &mut agent, [5; 32], "early".to_string(), 20),
        Err(ErrorCode::InvalidJobStatus)
    );
    assert_eq!(job.status, JobStatus::Created);
}

#[test]
fn dispute_rejects_foreign_agent_record() {
    let mut agent = staked_provider(key(1), 1000);
    let mut stranger = staked_provider(key(9), 1000);
    let mut job = create_job(key(2), key(1), job_meta(), 500, 100, 10);
    assert_eq!(checkpoint(&mut job, &mut agent, key(1), [0; 32], 10, 100), Ok(()));
    assert_eq!(settle(&mut job, key(2), 30), Ok(()));
    assert_eq!(
        dispute(&mut job, &mut stranger, [5; 32], "who".to_string(), 60),
        Err(ErrorCode::Unauthorized)
    );
    assert_eq!(job.status, JobStatus::Completed);
}

#[test]
fn reputation_saturates_at_zero_on_dispute() {
    let mut agent = staked_provider(key(1), 1000);
    agent.reputation_score = 5;
    let mut job = create_job(key(2), key(1), job_meta(), 500, 100, 10);
    assert_eq!(checkpoint(&mut job, &mut agent, key(1), [0; 32], 10, 100), Ok(()));
    assert_eq!(settle(&mut job, key(2), 30), Ok(()));
    assert_eq!(dispute(&mut job, &mut agent, [5; 32], "bad".to_string(), 60), Ok(()));
    assert_eq!(agent.reputation_score, 0);
}

#[test]
fn resolve_favoring_challenger_slashes_and_closes() {
    let mut agent = staked_provider(key(1), 1000);
    let mut job = create_job(key(2), key(1), job_meta(), 500, 100, 10);
    assert_eq!(checkpoint(&mut job, &mut agent, key(1), [0; 32], 10, 100), Ok(()));
    assert_eq!(settle(&mut job, key(2), 30), Ok(()));
    assert_eq!(dispute(&mut job, &mut agent, [5; 32], "bad".to_string(), 60), Ok(()));
    let rep_before = agent.reputation_score;
    assert_eq!(resolve_dispute(&mut job, &mut agent, true, 300, 70), Ok(()));
    assert_eq!(agent.stake_lamports, 700);
    assert_eq!(agent.reputation_score, rep_before - 20);
    assert_eq!(job.status, JobStatus::ResolvedChallenger);
    assert_eq!(job.resolved_at, Some(70));
}

#[test]
fn resolve_favoring_provider_rewards_and_closes() {
    let mut agent = staked_provider(key(1), 1000);
    let mut job = create_job(key(2), key(1), job_meta(), 500, 100, 10);
    assert_eq!(checkpoint(&mut job, &mut agent, key(1), [0; 32], 10, 100), Ok(()));
    assert_eq!(settle(&mut job, key(2), 30), Ok(()));
    assert_eq!(dispute(&mut job, &mut agent, [5; 32], "bad".to_string(), 60), Ok(()));
    let rep_before = agent.reputation_score;
    assert_eq!(resolve_dispute(&mut job, &mut agent, false, 300, 70), Ok(()));
    assert_eq!(agent.stake_lamports, 1000);
    assert_eq!(agent.reputation_score, rep_before + 5);
    assert_eq!(job.status, JobStatus::ResolvedProvider);
    assert_eq!(job.resolved_at, Some(70));
}

#[test]
fn resolve_slash_beyond_stake_fails_unchanged() {
    let mut agent = staked_provider(key(1), 200);
    let mut job = create_job(key(2), key(1), job_meta(), 500, 100, 10);
    assert_eq!(checkpoint(&mut job, &mut agent, key(1), [0; 32], 10, 100), Ok(()));
    assert_eq!(settle(&mut job, key(2), 30), Ok(()));
    assert_eq!(dispute(&mut job, &mut agent, [5; 32], "bad".to_string(), 60), Ok(()));
    let rep_before = agent.reputation_score;
    assert_eq!(resolve_dispute(&mut job, &mut agent, true, 201, 70), Err(ErrorCode::InsufficientStake));
    assert_eq!(agent.stake_lamports, 200);
    assert_eq!(agent.reputation_score, rep_before);
    assert_eq!(job.status, JobStatus::Disputed);
    assert_eq!(job.resolved_at, None);
}

#[test]
fn resolve_rejects_undisputed_job() {
    let mut agent = staked_provider(key(1), 1000);
    let mut job = create_job(key(2), key(1), job_meta(), 500, 100, 10);
    assert_eq!(
        resolve_dispute(&mut job, &mut agent, true, 100, 70),
        Err(ErrorCode::InvalidJobStatus)
    );
    assert_eq!(job.status, JobStatus::Created);
}

#[test]
fn resolved_job_accepts_no_further_transitions() {
    let mut agent = staked_provider(key(1), 1000);
    let mut job = create_job(key(2), key(1), job_meta(), 500, 100, 10);
    assert_eq!(checkpoint(&mut job, &mut agent, key(1), [0; 32], 10, 100), Ok(()));
    assert_eq!(settle(&mut job, key(2), 30), Ok(()));
    assert_eq!(dispute(&mut job, &mut agent, [5; 32], "bad".to_string(), 60), Ok(()));
    assert_eq!(resolve_dispute(&mut job, &mut agent, false, 0, 70), Ok(()));
    assert_eq!(
        resolve_dispute(&mut job, &mut agent, true, 10, 80),
        Err(ErrorCode::InvalidJobStatus)
    );
    assert_eq!(settle(&mut job, key(2), 90), Err(ErrorCode::InvalidJobStatus));
    assert_eq!(
        dispute(&mut job, &mut agent, [5; 32], "again".to_string(), 90),
        Err(ErrorCode::InvalidJobStatus)
    );
    assert_eq!(
        checkpoint(&mut job, &mut agent, key(1), [0; 32], 1, 1),
        Err(ErrorCode::InvalidJobStatus)
    );
    assert_eq!(job.status, JobStatus::ResolvedProvider);
}

#[test]
fn reputation_delta_saturates_both_ways() {
    let mut agent = register_agent(key(1), meta(), 1);
    apply_reputation_delta(&mut agent, 25);
    assert_eq!(agent.reputation_score, 125);
    apply_reputation_delta(&mut agent, -200);
    assert_eq!(agent.reputation_score, 0);
    apply_reputation_delta(&mut agent, i64::MIN);
    assert_eq!(agent.reputation_score, 0);
    apply_reputation_delta(&mut agent, i64::MAX);
    assert_eq!(agent.reputation_score, i64::MAX as u64);
    agent.reputation_score = u64::MAX - 1;
    apply_reputation_delta(&mut agent, 10);
    assert_eq!(agent.reputation_score, u64::MAX);
}
