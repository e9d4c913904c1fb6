use vstd::prelude::*;

use crate::agent::{fresh_agent, Agent, AgentMetadata};
use crate::errors::ErrorCode;
use crate::identity::key_eq;
use crate::job::{fresh_job, Job, JobMetadata};

verus! {

/// Whether some agent record in `agents` is owned by `authority`.
pub open spec fn has_agent(agents: Seq<Agent>, authority: Seq<u8>) -> bool {
    exists|i: int| 0 <= i < agents.len() && agents[i].authority@ == authority
}

/// Whether some job record in `jobs` belongs to the (buyer, provider)
/// pair.
pub open spec fn has_job(jobs: Seq<Job>, buyer: Seq<u8>, provider: Seq<u8>) -> bool {
    exists|i: int|
        0 <= i < jobs.len() && jobs[i].buyer@ == buyer && jobs[i].provider@ == provider
}

/// The record-addressing layer: agent records keyed by owning
/// authority, job records keyed by the (buyer, provider) pair.
///
/// Its well-formedness invariant is the addressing contract of the
/// whole store — at most one live agent per authority and one live job
/// per pair — and creation is "create if absent, else the specific
/// already-exists error", with zero mutation on failure.
pub struct Registry {
    pub agents: Vec<Agent>,
    pub jobs: Vec<Job>,
}

impl Registry {
    /// One live agent record per authority; one live job record per
    /// (buyer, provider) pair.
    pub open spec fn wf(self) -> bool {
        &&& forall|i: int, j: int|
            0 <= i < j < self.agents@.len() ==> self.agents@[i].authority@
                != self.agents@[j].authority@
        &&& forall|i: int, j: int|
            0 <= i < j < self.jobs@.len() ==> !(self.jobs@[i].buyer@ == self.jobs@[j].buyer@
                && self.jobs@[i].provider@ == self.jobs@[j].provider@)
    }

    /// An empty store.
    pub fn new() -> (r: Registry)
        ensures
            r.wf(),
            r.agents@.len() == 0,
            r.jobs@.len() == 0,
    {
        Registry { agents: Vec::new(), jobs: Vec::new() }
    }

    /// Position of the agent record owned by `authority`, if any.
    pub fn find_agent(&self, authority: [u8; 32]) -> (r: Option<usize>)
        ensures
            r is Some ==> r->0 < self.agents@.len() && self.agents@[r->0 as int].authority@
                == authority@,
            r is None ==> !has_agent(self.agents@, authority@),
    {
        let mut i: usize = 0;
        while i < self.agents.len()
            invariant
                i <= self.agents@.len(),
                forall|j: int| 0 <= j < i ==> self.agents@[j].authority@ != authority@,
            decreases self.agents@.len() - i,
        {
            if key_eq(&self.agents[i].authority, &authority) {
                return Some(i);
            }
            i += 1;
        }
        None
    }

    /// Position of the job record for the (buyer, provider) pair, if
    /// any.
    pub fn find_job(&self, buyer: [u8; 32], provider: [u8; 32]) -> (r: Option<usize>)
        ensures
            r is Some ==> r->0 < self.jobs@.len() && self.jobs@[r->0 as int].buyer@ == buyer@
                && self.jobs@[r->0 as int].provider@ == provider@,
            r is None ==> !has_job(self.jobs@, buyer@, provider@),
    {
        let mut i: usize = 0;
        while i < self.jobs.len()
            invariant
                i <= self.jobs@.len(),
                forall|j: int|
                    0 <= j < i ==> !(self.jobs@[j].buyer@ == buyer@ && self.jobs@[j].provider@
                        == provider@),
            decreases self.jobs@.len() - i,
        {
            if key_eq(&self.jobs[i].buyer, &buyer) && key_eq(&self.jobs[i].provider, &provider) {
                return Some(i);
            }
            i += 1;
        }
        None
    }

    /// Creates an agent record for `authority` if none exists, else
    /// fails with `AlreadyRegistered` and changes nothing.
    pub fn register(&mut self, authority: [u8; 32], metadata: AgentMetadata, now: u64) -> (r:
        Result<(), ErrorCode>)
        requires
            old(self).wf(),
        ensures
            final(self).wf(),
            r is Ok <==> !has_agent(old(self).agents@, authority@),
            r is Ok ==> final(self).agents@ == old(self).agents@.push(
                fresh_agent(authority, metadata, now),
            ) && final(self).jobs@ == old(self).jobs@ && has_agent(
                final(self).agents@,
                authority@,
            ),
            r is Err ==> *final(self) == *old(self) && r == Err::<(), ErrorCode>(
                ErrorCode::AlreadyRegistered,
            ),
    {
        if self.find_agent(authority).is_some() {
            return Err(ErrorCode::AlreadyRegistered);
        }
        let agent = crate::agent::register_agent(authority, metadata, now);
        self.agents.push(agent);
        assert forall|i: int, j: int|
            0 <= i < j < self.agents@.len() implies self.agents@[i].authority@
            != self.agents@[j].authority@ by {
            if j == self.agents@.len() - 1 {
                assert(self.agents@[i] == old(self).agents@[i]);
            }
        }
        assert(self.agents@[self.agents@.len() - 1].authority@ == authority@);
        Ok(())
    }

    /// Creates a job record for the (buyer, provider) pair if none
    /// exists, else fails with `AlreadyExists` and changes nothing.
    pub fn create(
        &mut self,
        buyer: [u8; 32],
        provider: [u8; 32],
        job_metadata: JobMetadata,
        price_cap_lamports: u64,
        challenge_window_slots: u64,
        now: u64,
    ) -> (r: Result<(), ErrorCode>)
        requires
            old(self).wf(),
        ensures
            final(self).wf(),
            r is Ok <==> !has_job(old(self).jobs@, buyer@, provider@),
            r is Ok ==> final(self).jobs@ == old(self).jobs@.push(
                fresh_job(
                    buyer,
                    provider,
                    job_metadata,
                    price_cap_lamports,
                    challenge_window_slots,
                    now,
                ),
            ) && final(self).agents@ == old(self).agents@ && has_job(
                final(self).jobs@,
                buyer@,
                provider@,
            ),
            r is Err ==> *final(self) == *old(self) && r == Err::<(), ErrorCode>(
                ErrorCode::AlreadyExists,
            ),
    {
        if self.find_job(buyer, provider).is_some() {
            return Err(ErrorCode::AlreadyExists);
        }
        let job = crate::job::create_job(
            buyer,
            provider,
            job_metadata,
            price_cap_lamports,
            challenge_window_slots,
            now,
        );
        self.jobs.push(job);
        assert forall|i: int, j: int|
            0 <= i < j < self.jobs@.len() implies !(self.jobs@[i].buyer@ == self.jobs@[j].buyer@
            && self.jobs@[i].provider@ == self.jobs@[j].provider@) by {
            if j == self.jobs@.len() - 1 {
                assert(self.jobs@[i] == old(self).jobs@[i]);
            }
        }
        assert(self.jobs@[self.jobs@.len() - 1].buyer@ == buyer@);
        Ok(())
    }
}

} // verus!
