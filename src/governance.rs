use vstd::prelude::*;
use crate::error::Error;
use crate::model::{
    begin_step, closed_gate, complete_step, create_step, execute_step, gate, initial_model,
    queue_step, vote_step, pause_step, unpause_step, add_guardian_step, remove_guardian_step,
    set_timelock_step, set_params_step, transfer_ownership_step, ExecutionStep, TimelockUpdated, GovernanceModel, ProposalExecuted, ProposalQueued,
};
use crate::tally::{evaluate, TallyOutcome};
use crate::timelock::{is_mature, is_mature_spec, ready_at};
use crate::traits::{dispatch_effect, request_of, ProposalEffects};
use crate::types::{
    is_side_effecting, same_account, validate_description, validate_kind, Balance, CallContext, GovernanceParams,
    Proposal, ProposalType, VoteRecord,
};

verus! {

/// Failed effect attempts allowed before a proposal can no longer be executed.
pub const DEFAULT_MAX_EXECUTION_ATTEMPTS: u32 = 3;

/// The governance engine: proposals, votes, the timelock queue, the guardians
/// and the reentrancy flag.
pub struct Governance {
    owner: [u8; 32],
    token_address: [u8; 32],
    registry_address: [u8; 32],
    grid_service_address: [u8; 32],
    guardians: Vec<[u8; 32]>,
    paused: bool,
    entered: bool,
    executing: Option<u64>,
    params: GovernanceParams,
    proposals: Vec<Proposal>,
    queue_times: Vec<u64>,
    votes: Vec<VoteRecord>,
}

impl View for Governance {
    type V = GovernanceModel;

    closed spec fn view(&self) -> GovernanceModel {
        GovernanceModel {
            owner: self.owner,
            token_address: self.token_address,
            registry_address: self.registry_address,
            grid_service_address: self.grid_service_address,
            guardians: self.guardians@,
            paused: self.paused,
            entered: self.entered,
            executing: self.executing,
            params: self.params,
            proposals: self.proposals@,
            queue_times: self.queue_times@,
            votes: self.votes@,
        }
    }
}

/// The invariant depends only on the proposals, queue, votes, the guardians
/// having no repeats, and the reentrancy state.
proof fn lemma_wf_frame(a: GovernanceModel, b: GovernanceModel)
    requires
        a.wf(),
        b.proposals == a.proposals,
        b.queue_times == a.queue_times,
        b.votes == a.votes,
        b.guardians.no_duplicates(),
        b.entered == a.entered,
        b.executing == a.executing,
    ensures
        b.wf(),
{
}

impl Governance {
    /// A fresh engine owned by `caller`, with no timelock and
    /// `DEFAULT_MAX_EXECUTION_ATTEMPTS` attempts per proposal.
    pub fn new(
        caller: [u8; 32],
        token_address: [u8; 32],
        registry_address: [u8; 32],
        grid_service_address: [u8; 32],
        min_voting_power: Balance,
        voting_duration_blocks: u64,
        quorum_percentage: u32,
    ) -> (r: Governance)
        ensures
            r@ == initial_model(
                caller,
                token_address,
                registry_address,
                grid_service_address,
                GovernanceParams {
                    min_voting_power,
                    voting_duration_blocks,
                    quorum_percentage,
                    timelock_seconds: 0,
                    max_execution_attempts: DEFAULT_MAX_EXECUTION_ATTEMPTS,
                },
            ),
            r@.wf(),
    {
        let r = Governance {
            owner: caller,
            token_address,
            registry_address,
            grid_service_address,
            guardians: Vec::new(),
            paused: false,
            entered: false,
            executing: None,
            params: GovernanceParams {
                min_voting_power,
                voting_duration_blocks,
                quorum_percentage,
                timelock_seconds: 0,
                max_execution_attempts: DEFAULT_MAX_EXECUTION_ATTEMPTS,
            },
            proposals: Vec::new(),
            queue_times: Vec::new(),
            votes: Vec::new(),
        };
        assert(r@.guardians =~= Seq::<[u8; 32]>::empty());
        assert(r@.proposals =~= Seq::<Proposal>::empty());
        assert(r@.queue_times =~= Seq::<u64>::empty());
        assert(r@.votes =~= Seq::<VoteRecord>::empty());
        r
    }

    fn check_gate(&self) -> (r: Option<Error>)
        ensures
            r == gate(self@),
    {
        if self.entered {
            Some(Error::Unauthorized)
        } else if self.paused {
            Some(Error::ContractPaused)
        } else {
            None
        }
    }

    /// Where proposal `id` is stored, if it exists.
    fn index_of(&self, id: u64) -> (r: Option<usize>)
        ensures
            r is Some == self@.has_proposal(id),
            r matches Some(i) ==> i == id - 1,
    {
        if id == 0 || id > self.proposals.len() as u64 {
            None
        } else {
            Some((id - 1) as usize)
        }
    }

    fn voted(&self, id: u64, voter: &[u8; 32]) -> (r: bool)
        ensures
            r == self@.has_voted(id, *voter),
    {
        let mut i: usize = 0;
        while i < self.votes.len()
            invariant
                0 <= i <= self.votes.len(),
                forall|j: int| 0 <= j < i ==> !(#[trigger] self.votes@[j].proposal_id == id && self.votes@[j].voter == *voter),
            decreases self.votes.len() - i,
        {
            if self.votes[i].proposal_id == id && same_account(&self.votes[i].voter, voter) {
                assert(self@.votes[i as int].proposal_id == id);
                return true;
            }
            i = i + 1;
        }
        false
    }

    /// Creates a proposal and returns its id. `voting_power` is the caller's
    /// weight as the token reports it (see `traits::get_voting_power`); the
    /// voting window runs from `ctx.block_number` for the configured number of
    /// blocks.
    pub fn create_proposal(
        &mut self,
        ctx: CallContext,
        proposal_type: ProposalType,
        description: String,
        voting_power: u64,
    ) -> (r: Result<u64, Error>)
        requires
            old(self)@.wf(),
        ensures
            final(self)@.wf(),
            (r, final(self)@) == create_step(
                old(self)@,
                ctx.caller,
                ctx.block_number,
                ctx.timestamp,
                proposal_type,
                description,
                voting_power,
            ),
    {
        if let Some(e) = self.check_gate() {
            return Err(e);
        }
        if (voting_power as u128) < self.params.min_voting_power {
            return Err(Error::InsufficientVotingPower);
        }
        if !validate_description(&description) || !validate_kind(&proposal_type) {
            return Err(Error::InvalidParameter);
        }
        if self.proposals.len() as u64 == u64::MAX {
            return Err(Error::InvalidParameter);
        }
        let id = self.proposals.len() as u64 + 1;
        let voting_end = ctx.block_number.saturating_add(self.params.voting_duration_blocks);
        let p = Proposal {
            proposer: ctx.caller,
            proposal_type,
            description,
            yes_votes: 0,
            no_votes: 0,
            total_voting_power: 0,
            created_at: ctx.timestamp,
            voting_end,
            executed: false,
            active: true,
            execution_failures: 0,
        };
        self.proposals.push(p);
        self.queue_times.push(0);
        Ok(id)
    }

    /// Casts the caller's vote on proposal `id` with the weight `voting_power`
    /// that the token reports for it. The counted weight is frozen in the vote
    /// record; `reason` is for the caller's own log and is not stored.
    pub fn vote(
        &mut self,
        ctx: CallContext,
        proposal_id: u64,
        support: bool,
        reason: String,
        voting_power: u64,
    ) -> (r: Result<(), Error>)
        requires
            old(self)@.wf(),
        ensures
            final(self)@.wf(),
            (r, final(self)@) == vote_step(old(self)@, ctx.caller, ctx.block_number, proposal_id, support, voting_power),
    {
        if let Some(e) = self.check_gate() {
            return Err(e);
        }
        let i = match self.index_of(proposal_id) {
            Some(i) => i,
            None => return Err(Error::ProposalNotFound),
        };
        if ctx.block_number > self.proposals[i].voting_end || self.proposals[i].executed {
            return Err(Error::ProposalExpired);
        }
        if self.voted(proposal_id, &ctx.caller) {
            return Err(Error::AlreadyVoted);
        }
        if voting_power == 0 {
            return Err(Error::InsufficientVotingPower);
        }
        let ghost s = self@;
        let mut p = self.proposals[i].duplicate();
        let weight = if voting_power > u64::MAX - p.total_voting_power {
            u64::MAX - p.total_voting_power
        } else {
            voting_power
        };
        if support {
            p.yes_votes = p.yes_votes + weight;
        } else {
            p.no_votes = p.no_votes + weight;
        }
        p.total_voting_power = p.total_voting_power + weight;
        self.proposals.set(i, p);
        self.votes.push(VoteRecord { proposal_id, voter: ctx.caller, support, weight });
        proof {
            let s2 = vote_step(s, ctx.caller, ctx.block_number, proposal_id, support, voting_power).1;
            assert(self@.proposals =~= s2.proposals);
            assert(self@.votes =~= s2.votes);
            assert forall|a: int, b: int| 0 <= a < b < self@.votes.len() implies
                !(#[trigger] self@.votes[a].proposal_id == #[trigger] self@.votes[b].proposal_id
                    && self@.votes[a].voter == self@.votes[b].voter) by {
                if b == self@.votes.len() - 1 {
                    assert(s.votes[a] == self@.votes[a]);
                }
            }
        }
        Ok(())
    }

    fn closed_gate_check(&self, block_number: u64, id: u64) -> (r: Result<usize, Error>)
        requires
            self@.wf(),
        ensures
            r is Err == closed_gate(self@, block_number, id) is Some,
            r matches Err(e) ==> closed_gate(self@, block_number, id) == Some(e),
            r matches Ok(i) ==> i == id - 1 && self@.has_proposal(id),
    {
        if let Some(e) = self.check_gate() {
            return Err(e);
        }
        let i = match self.index_of(id) {
            Some(i) => i,
            None => return Err(Error::ProposalNotFound),
        };
        if block_number <= self.proposals[i].voting_end {
            return Err(Error::ProposalNotExpired);
        }
        if self.proposals[i].executed {
            return Err(Error::ProposalAlreadyExecuted);
        }
        Ok(i)
    }

    /// Puts proposal `id` in the timelock queue once its voting window has
    /// closed. Queueing it again keeps the first queue time.
    pub fn queue_proposal(&mut self, ctx: CallContext, proposal_id: u64) -> (r: Result<ProposalQueued, Error>)
        requires
            old(self)@.wf(),
        ensures
            final(self)@.wf(),
            (r, final(self)@) == queue_step(old(self)@, ctx.block_number, ctx.timestamp, proposal_id),
    {
        let i = match self.closed_gate_check(ctx.block_number, proposal_id) {
            Ok(i) => i,
            Err(e) => return Err(e),
        };
        let t = if self.queue_times[i] != 0 { self.queue_times[i] } else { ctx.timestamp };
        if t == 0 {
            return Err(Error::InvalidParameter);
        }
        let ghost s = self@;
        self.queue_times.set(i, t);
        assert(self@ == GovernanceModel { queue_times: s.queue_times.update(i as int, t), ..s });
        let execute_after = ready_at(t, self.params.timelock_seconds);
        Ok(ProposalQueued { proposal_id, queued_at: t, execute_after })
    }

    /// The first half of executing proposal `id` against a total supply of
    /// `total_supply`: every check and decision up to the effect. On
    /// `Dispatch` the reentrancy flag stays set until `complete_execution`.
    pub fn begin_execution(&mut self, ctx: CallContext, proposal_id: u64, total_supply: u64) -> (r: Result<ExecutionStep, Error>)
        requires
            old(self)@.wf(),
        ensures
            final(self)@.wf(),
            (r, final(self)@) == begin_step(old(self)@, ctx.block_number, ctx.timestamp, proposal_id, total_supply),
    {
        let i = match self.closed_gate_check(ctx.block_number, proposal_id) {
            Ok(i) => i,
            Err(e) => return Err(e),
        };
        let ghost s = self@;
        let outcome = match evaluate(&self.proposals[i], total_supply, self.params.quorum_percentage) {
            Ok(o) => o,
            Err(e) => return Err(e),
        };
        if outcome != TallyOutcome::Passed {
            let mut p = self.proposals[i].duplicate();
            p.executed = true;
            p.active = false;
            self.proposals.set(i, p);
            proof {
                assert(self@.proposals =~= begin_step(s, ctx.block_number, ctx.timestamp, proposal_id, total_supply).1.proposals);
            }
            return Ok(ExecutionStep::Rejected);
        }
        if self.proposals[i].execution_failures >= self.params.max_execution_attempts {
            return Err(Error::ExecutionFailed);
        }
        let q = self.queue_times[i];
        if q == 0 {
            return Err(Error::NotQueued);
        }
        if ctx.timestamp < ready_at(q, self.params.timelock_seconds) {
            return Err(Error::TimelockNotElapsed);
        }
        if !is_side_effecting(&self.proposals[i].proposal_type) {
            let mut p = self.proposals[i].duplicate();
            p.executed = true;
            p.active = false;
            p.execution_failures = 0;
            self.proposals.set(i, p);
            proof {
                assert(self@.proposals =~= begin_step(s, ctx.block_number, ctx.timestamp, proposal_id, total_supply).1.proposals);
            }
            return Ok(ExecutionStep::Executed);
        }
        self.entered = true;
        self.executing = Some(proposal_id);
        Ok(ExecutionStep::Dispatch(self.proposals[i].proposal_type.duplicate()))
    }

    /// The second half of executing proposal `id`: records whether its effect
    /// took hold and clears the reentrancy flag. Refused unless `id` is the
    /// proposal whose effect is being carried out.
    pub fn complete_execution(&mut self, proposal_id: u64, effect_ok: bool) -> (r: Result<ProposalExecuted, Error>)
        requires
            old(self)@.wf(),
        ensures
            final(self)@.wf(),
            (r, final(self)@) == complete_step(old(self)@, proposal_id, effect_ok),
    {
        let pending = match self.executing {
            Some(id) => id == proposal_id,
            None => false,
        };
        if !self.entered || !pending {
            return Err(Error::Unauthorized);
        }
        let ghost s = self@;
        let i = match self.index_of(proposal_id) {
            Some(i) => i,
            None => return Err(Error::Unauthorized),
        };
        self.entered = false;
        self.executing = None;
        let mut p = self.proposals[i].duplicate();
        if effect_ok {
            p.executed = true;
            p.active = false;
            p.execution_failures = 0;
            self.proposals.set(i, p);
            proof {
                assert(self@.proposals =~= complete_step(s, proposal_id, effect_ok).1.proposals);
            }
            Ok(ProposalExecuted { proposal_id, successful: true })
        } else {
            if p.execution_failures < u32::MAX {
                p.execution_failures = p.execution_failures + 1;
            }
            self.proposals.set(i, p);
            proof {
                assert(self@.proposals =~= complete_step(s, proposal_id, effect_ok).1.proposals);
            }
            Err(Error::ExecutionFailed)
        }
    }

    /// Executes proposal `id`: decides it against `total_supply` (the token's
    /// supply, see `traits::get_total_voting_power`), carries out its effect
    /// through `effects` where it has one, and records the outcome. What
    /// `effects` reports decides between the two outcomes of `execute_step`;
    /// `effects` is left alone unless the decision is to dispatch.
    pub fn execute_proposal<E: ProposalEffects>(
        &mut self,
        ctx: CallContext,
        proposal_id: u64,
        total_supply: u64,
        effects: &mut E,
    ) -> (r: Result<ProposalExecuted, Error>)
        requires
            old(self)@.wf(),
        ensures
            final(self)@.wf(),
            !final(self)@.entered || old(self)@.entered,
            !(begin_step(old(self)@, ctx.block_number, ctx.timestamp, proposal_id, total_supply).0 matches Ok(
                ExecutionStep::Dispatch(_),
            )) ==> *final(effects) == *old(effects),
            begin_step(old(self)@, ctx.block_number, ctx.timestamp, proposal_id, total_supply).0 matches Ok(
                ExecutionStep::Dispatch(k),
            ) ==> request_of(k) matches Some(q) && final(effects).requests() == old(effects).requests().push(q),
            exists|effect_ok: bool|
                (r, final(self)@) == execute_step(old(self)@, ctx.block_number, ctx.timestamp, proposal_id, total_supply, effect_ok),
    {
        let ghost s = self@;
        match self.begin_execution(ctx, proposal_id, total_supply) {
            Err(e) => {
                assert((Err::<ProposalExecuted, Error>(e), self@) == execute_step(s, ctx.block_number, ctx.timestamp, proposal_id, total_supply, true));
                Err(e)
            },
            Ok(ExecutionStep::Rejected) => {
                let r = ProposalExecuted { proposal_id, successful: false };
                assert((Ok::<ProposalExecuted, Error>(r), self@) == execute_step(s, ctx.block_number, ctx.timestamp, proposal_id, total_supply, true));
                Ok(r)
            },
            Ok(ExecutionStep::Executed) => {
                let r = ProposalExecuted { proposal_id, successful: true };
                assert((Ok::<ProposalExecuted, Error>(r), self@) == execute_step(s, ctx.block_number, ctx.timestamp, proposal_id, total_supply, true));
                Ok(r)
            },
            Ok(ExecutionStep::Dispatch(kind)) => {
                let ok = dispatch_effect(effects, &kind);
                let r = self.complete_execution(proposal_id, ok);
                assert((r, self@) == execute_step(s, ctx.block_number, ctx.timestamp, proposal_id, total_supply, ok));
                r
            },
        }
    }

    fn is_owner(&self, caller: &[u8; 32]) -> (r: bool)
        ensures
            r == (*caller == self@.owner),
    {
        same_account(caller, &self.owner)
    }

    /// Where `account` stands among the guardians other than the owner.
    fn guardian_index(&self, account: &[u8; 32]) -> (r: Option<usize>)
        ensures
            r is Some == self@.guardians.contains(*account),
            r matches Some(i) ==> i < self@.guardians.len() && self@.guardians[i as int] == *account,
    {
        let mut i: usize = 0;
        while i < self.guardians.len()
            invariant
                0 <= i <= self.guardians.len(),
                forall|j: int| 0 <= j < i ==> self.guardians@[j] != *account,
            decreases self.guardians.len() - i,
        {
            if same_account(&self.guardians[i], account) {
                return Some(i);
            }
            i = i + 1;
        }
        None
    }

    /// Pauses every governance entry point; open to the owner and the guardians.
    pub fn emergency_pause(&mut self, caller: [u8; 32]) -> (r: Result<(), Error>)
        requires
            old(self)@.wf(),
        ensures
            final(self)@.wf(),
            (r, final(self)@) == pause_step(old(self)@, caller),
    {
        if self.entered {
            return Err(Error::Unauthorized);
        }
        if !self.is_owner(&caller) && self.guardian_index(&caller).is_none() {
            return Err(Error::Unauthorized);
        }
        self.paused = true;
        proof { lemma_wf_frame(old(self)@, self@); }
        Ok(())
    }

    /// Lifts the pause; open to the owner alone.
    pub fn emergency_unpause(&mut self, caller: [u8; 32]) -> (r: Result<(), Error>)
        requires
            old(self)@.wf(),
        ensures
            final(self)@.wf(),
            (r, final(self)@) == unpause_step(old(self)@, caller),
    {
        if self.entered || !self.is_owner(&caller) {
            return Err(Error::Unauthorized);
        }
        self.paused = false;
        proof { lemma_wf_frame(old(self)@, self@); }
        Ok(())
    }

    pub fn add_guardian(&mut self, caller: [u8; 32], account: [u8; 32]) -> (r: Result<(), Error>)
        requires
            old(self)@.wf(),
        ensures
            final(self)@.wf(),
            (r, final(self)@) == add_guardian_step(old(self)@, caller, account),
    {
        if self.entered || !self.is_owner(&caller) {
            return Err(Error::Unauthorized);
        }
        if self.is_owner(&account) || self.guardian_index(&account).is_some() {
            return Ok(());
        }
        let ghost g = self.guardians@;
        self.guardians.push(account);
        proof {
            assert forall|a: int, b: int| 0 <= a < b < self.guardians@.len() implies
                self.guardians@[a] != self.guardians@[b] by {
                if b == g.len() {
                    assert(g[a] == self.guardians@[a]);
                }
            }
            lemma_wf_frame(old(self)@, self@);
        }
        Ok(())
    }

    pub fn remove_guardian(&mut self, caller: [u8; 32], account: [u8; 32]) -> (r: Result<(), Error>)
        requires
            old(self)@.wf(),
        ensures
            final(self)@.wf(),
            (r, final(self)@) == remove_guardian_step(old(self)@, caller, account),
    {
        if self.entered || !self.is_owner(&caller) {
            return Err(Error::Unauthorized);
        }
        if self.is_owner(&account) {
            return Err(Error::InvalidParameter);
        }
        match self.guardian_index(&account) {
            Some(i) => {
                let ghost g = self.guardians@;
                proof {
                    assert(g.contains(account));
                    let k = g.index_of(account);
                    assert(g[k] == account);
                    assert(k == i);
                }
                self.guardians.remove(i);
                proof {
                    assert forall|a: int, b: int| 0 <= a < b < self.guardians@.len() implies
                        self.guardians@[a] != self.guardians@[b] by {
                        let a2 = if a < i { a } else { a + 1 };
                        let b2 = if b < i { b } else { b + 1 };
                        assert(self.guardians@[a] == g[a2]);
                        assert(self.guardians@[b] == g[b2]);
                    }
                    lemma_wf_frame(old(self)@, self@);
                }
                Ok(())
            },
            None => Ok(()),
        }
    }

    /// Hands the engine to `new_owner`; owner only. The previous owner stays a
    /// guardian.
    pub fn transfer_ownership(&mut self, caller: [u8; 32], new_owner: [u8; 32]) -> (r: Result<(), Error>)
        requires
            old(self)@.wf(),
        ensures
            final(self)@.wf(),
            (r, final(self)@) == transfer_ownership_step(old(self)@, caller, new_owner),
    {
        if self.entered || !self.is_owner(&caller) {
            return Err(Error::Unauthorized);
        }
        if self.is_owner(&new_owner) {
            return Ok(());
        }
        let previous = self.owner;
        if self.guardian_index(&previous).is_none() {
            let ghost g = self.guardians@;
            self.guardians.push(previous);
            proof {
                assert forall|a: int, b: int| 0 <= a < b < self.guardians@.len() implies
                    self.guardians@[a] != self.guardians@[b] by {
                    if b == g.len() {
                        assert(g[a] == self.guardians@[a]);
                    }
                }
            }
        }
        self.owner = new_owner;
        proof { lemma_wf_frame(old(self)@, self@); }
        Ok(())
    }

    /// Sets the timelock delay; owner only.
    pub fn set_timelock_seconds(&mut self, caller: [u8; 32], seconds: u64) -> (r: Result<TimelockUpdated, Error>)
        requires
            old(self)@.wf(),
        ensures
            final(self)@.wf(),
            (r, final(self)@) == set_timelock_step(old(self)@, caller, seconds),
    {
        if self.entered || !self.is_owner(&caller) {
            return Err(Error::Unauthorized);
        }
        let old_seconds = self.params.timelock_seconds;
        self.params.timelock_seconds = seconds;
        proof { lemma_wf_frame(old(self)@, self@); }
        Ok(TimelockUpdated { old_seconds, new_seconds: seconds })
    }

    /// Replaces every governance parameter; owner only.
    pub fn set_governance_params(&mut self, caller: [u8; 32], params: GovernanceParams) -> (r: Result<(), Error>)
        requires
            old(self)@.wf(),
        ensures
            final(self)@.wf(),
            (r, final(self)@) == set_params_step(old(self)@, caller, params),
    {
        if self.entered || !self.is_owner(&caller) {
            return Err(Error::Unauthorized);
        }
        self.params = params;
        proof { lemma_wf_frame(old(self)@, self@); }
        Ok(())
    }

    pub fn get_proposal(&self, proposal_id: u64) -> (r: Option<Proposal>)
        ensures
            r == (if self@.has_proposal(proposal_id) { Some(self@.proposal(proposal_id)) } else { None }),
    {
        match self.index_of(proposal_id) {
            Some(i) => Some(self.proposals[i].duplicate()),
            None => None,
        }
    }

    pub fn has_voted(&self, proposal_id: u64, voter: [u8; 32]) -> (r: bool)
        ensures
            r == self@.has_voted(proposal_id, voter),
    {
        self.voted(proposal_id, &voter)
    }

    /// The minimum voting power to propose, the voting window in blocks and
    /// the quorum percentage.
    pub fn get_governance_params(&self) -> (r: (Balance, u64, u32))
        ensures
            r == (self@.params.min_voting_power, self@.params.voting_duration_blocks, self@.params.quorum_percentage),
    {
        (self.params.min_voting_power, self.params.voting_duration_blocks, self.params.quorum_percentage)
    }

    pub fn governance_params(&self) -> (r: GovernanceParams)
        ensures
            r == self@.params,
    {
        self.params
    }

    /// When proposal `id` was queued; `None` when it was not, or does not exist.
    pub fn get_queued_at(&self, proposal_id: u64) -> (r: Option<u64>)
        requires
            self@.wf(),
        ensures
            r == (if self@.has_proposal(proposal_id) && self@.queued_at(proposal_id) != 0 {
                Some(self@.queued_at(proposal_id))
            } else {
                None
            }),
    {
        match self.index_of(proposal_id) {
            Some(i) => if self.queue_times[i] != 0 { Some(self.queue_times[i]) } else { None },
            None => None,
        }
    }

    /// Whether proposal `id`'s timelock has run out at `now`.
    pub fn is_proposal_mature(&self, proposal_id: u64, now: u64) -> (r: bool)
        requires
            self@.wf(),
        ensures
            r == (self@.has_proposal(proposal_id)
                && is_mature_spec(self@.queued_at(proposal_id), self@.params.timelock_seconds, now)),
    {
        match self.index_of(proposal_id) {
            Some(i) => is_mature(self.queue_times[i], self.params.timelock_seconds, now),
            None => false,
        }
    }

    pub fn is_paused(&self) -> (r: bool)
        ensures
            r == self@.paused,
    {
        self.paused
    }

    /// Whether a governance call is in progress: an effect awaits its outcome.
    pub fn is_entered(&self) -> (r: bool)
        ensures
            r == self@.entered,
    {
        self.entered
    }

    pub fn is_guardian(&self, account: [u8; 32]) -> (r: bool)
        ensures
            r == self@.is_guardian(account),
    {
        self.is_owner(&account) || self.guardian_index(&account).is_some()
    }

    pub fn owner(&self) -> (r: [u8; 32])
        ensures
            r == self@.owner,
    {
        self.owner
    }

    /// The id that the next proposal will get.
    pub fn next_proposal_id(&self) -> (r: u64)
        requires
            self@.wf(),
            self@.proposals.len() < u64::MAX,
        ensures
            r == self@.next_proposal_id(),
    {
        self.proposals.len() as u64 + 1
    }
}

} // verus!
