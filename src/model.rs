use vstd::prelude::*;
use crate::error::Error;
use crate::tally::{tally, TallyOutcome};
use crate::timelock::{ready_at_spec, saturate};
use crate::types::{
    description_is_valid, has_side_effect, kind_is_valid, GovernanceParams, Proposal,
    ProposalType, VoteRecord,
};

verus! {

/// Record of a proposal put in the timelock queue.
#[derive(Clone, Copy, Debug, PartialEq, Eq, Structural)]
pub struct ProposalQueued {
    pub proposal_id: u64,
    pub queued_at: u64,
    pub execute_after: u64,
}

/// Record of an attempt to execute a proposal that changed its state.
#[derive(Clone, Copy, Debug, PartialEq, Eq, Structural)]
pub struct ProposalExecuted {
    pub proposal_id: u64,
    /// True when the proposal passed and its effect took hold.
    pub successful: bool,
}

/// Record of a change of the timelock delay.
#[derive(Clone, Copy, Debug, PartialEq, Eq, Structural)]
pub struct TimelockUpdated {
    pub old_seconds: u64,
    pub new_seconds: u64,
}

/// What the first half of an execution decided.
#[derive(Clone, Debug, PartialEq, Eq)]
pub enum ExecutionStep {
    /// The tally failed; the proposal is closed for good.
    Rejected,
    /// The proposal passed and has no effect to carry out; it is executed.
    Executed,
    /// The proposal passed: its effect must be carried out, and the outcome
    /// reported before any other governance call is admitted.
    Dispatch(ProposalType),
}

/// The abstract state of the governance engine. Proposal `id` sits at index `id - 1`.
pub struct GovernanceModel {
    pub owner: [u8; 32],
    pub token_address: [u8; 32],
    pub registry_address: [u8; 32],
    pub grid_service_address: [u8; 32],
    /// Guardians other than the owner, who is always one.
    pub guardians: Seq<[u8; 32]>,
    pub paused: bool,
    /// The reentrancy flag: set while a proposal's effect is being carried out.
    pub entered: bool,
    /// The proposal whose effect is being carried out.
    pub executing: Option<u64>,
    pub params: GovernanceParams,
    pub proposals: Seq<Proposal>,
    /// When each proposal was queued; 0 when it never was.
    pub queue_times: Seq<u64>,
    /// Every vote cast, in order.
    pub votes: Seq<VoteRecord>,
}

/// The weight a vote adds: all of it, unless the participating total would
/// pass `u64::MAX`, in which case just what fits.
pub open spec fn counted_weight(total: u64, weight: u64) -> u64 {
    if weight as int > u64::MAX - total { (u64::MAX - total) as u64 } else { weight }
}

/// A proposal fresh from creation.
pub open spec fn new_proposal(
    proposer: [u8; 32],
    kind: ProposalType,
    description: String,
    created_at: u64,
    voting_end: u64,
) -> Proposal {
    Proposal {
        proposer,
        proposal_type: kind,
        description,
        yes_votes: 0,
        no_votes: 0,
        total_voting_power: 0,
        created_at,
        voting_end,
        executed: false,
        active: true,
        execution_failures: 0,
    }
}

/// `p` after a vote of `weight` for or against it.
pub open spec fn with_vote(p: Proposal, support: bool, weight: u64) -> Proposal {
    let w = counted_weight(p.total_voting_power, weight);
    Proposal {
        yes_votes: if support { (p.yes_votes + w) as u64 } else { p.yes_votes },
        no_votes: if support { p.no_votes } else { (p.no_votes + w) as u64 },
        total_voting_power: (p.total_voting_power + w) as u64,
        ..p
    }
}

/// `p` closed for good: executed and no longer active.
pub open spec fn closed(p: Proposal) -> Proposal {
    Proposal { executed: true, active: false, ..p }
}

/// `p` carried out: closed, with its failure count cleared.
pub open spec fn completed(p: Proposal) -> Proposal {
    Proposal { executed: true, active: false, execution_failures: 0, ..p }
}

/// `p` after one more failed attempt at its effect.
pub open spec fn failed_once(p: Proposal) -> Proposal {
    Proposal {
        execution_failures: if p.execution_failures == u32::MAX { u32::MAX } else { (p.execution_failures + 1) as u32 },
        ..p
    }
}

impl GovernanceModel {
    pub open spec fn has_proposal(self, id: u64) -> bool {
        1 <= id <= self.proposals.len()
    }

    pub open spec fn proposal(self, id: u64) -> Proposal {
        self.proposals[id - 1]
    }

    /// When proposal `id` was queued; 0 stands for "not queued".
    pub open spec fn queued_at(self, id: u64) -> u64 {
        self.queue_times[id - 1]
    }

    pub open spec fn has_voted(self, id: u64, voter: [u8; 32]) -> bool {
        exists|i: int| 0 <= i < self.votes.len() && #[trigger] self.votes[i].proposal_id == id && self.votes[i].voter == voter
    }

    pub open spec fn is_guardian(self, account: [u8; 32]) -> bool {
        account == self.owner || self.guardians.contains(account)
    }

    /// The id the next proposal gets.
    pub open spec fn next_proposal_id(self) -> int {
        self.proposals.len() as int + 1
    }

    pub open spec fn with_proposal(self, id: u64, p: Proposal) -> GovernanceModel {
        GovernanceModel { proposals: self.proposals.update(id - 1, p), ..self }
    }

    /// The invariant that every operation keeps.
    pub open spec fn wf(self) -> bool {
        &&& self.queue_times.len() == self.proposals.len()
        &&& self.proposals.len() <= u64::MAX
        &&& forall|i: int| 0 <= i < self.proposals.len() ==>
            (#[trigger] self.proposals[i]).yes_votes + self.proposals[i].no_votes == self.proposals[i].total_voting_power
        &&& forall|i: int| 0 <= i < self.proposals.len() ==>
            (#[trigger] self.proposals[i]).active == !self.proposals[i].executed
        &&& forall|i: int| 0 <= i < self.votes.len() ==>
            1 <= (#[trigger] self.votes[i]).proposal_id <= self.proposals.len()
        &&& forall|i: int, j: int| 0 <= i < j < self.votes.len() ==>
            !(#[trigger] self.votes[i].proposal_id == #[trigger] self.votes[j].proposal_id
                && self.votes[i].voter == self.votes[j].voter)
        &&& self.guardians.no_duplicates()
        &&& self.entered == self.executing is Some
        &&& self.executing matches Some(id) ==> self.has_proposal(id) && !self.proposal(id).executed
    }
}

/// The engine right after deployment.
pub open spec fn initial_model(
    owner: [u8; 32],
    token_address: [u8; 32],
    registry_address: [u8; 32],
    grid_service_address: [u8; 32],
    params: GovernanceParams,
) -> GovernanceModel {
    GovernanceModel {
        owner,
        token_address,
        registry_address,
        grid_service_address,
        guardians: Seq::empty(),
        paused: false,
        entered: false,
        executing: None,
        params,
        proposals: Seq::empty(),
        queue_times: Seq::empty(),
        votes: Seq::empty(),
    }
}

/// The checks that come first on every mutating call: the reentrancy flag, then the pause.
pub open spec fn gate(s: GovernanceModel) -> Option<Error> {
    if s.entered {
        Some(Error::Unauthorized)
    } else if s.paused {
        Some(Error::ContractPaused)
    } else {
        None
    }
}

/// Creating a proposal: the result and the state after it.
pub open spec fn create_step(
    s: GovernanceModel,
    caller: [u8; 32],
    block_number: u64,
    timestamp: u64,
    kind: ProposalType,
    description: String,
    voting_power: u64,
) -> (Result<u64, Error>, GovernanceModel) {
    if let Some(e) = gate(s) {
        (Err(e), s)
    } else if (voting_power as u128) < s.params.min_voting_power {
        (Err(Error::InsufficientVotingPower), s)
    } else if !description_is_valid(description@) || !kind_is_valid(kind) {
        (Err(Error::InvalidParameter), s)
    } else if s.proposals.len() >= u64::MAX {
        (Err(Error::InvalidParameter), s)
    } else {
        let voting_end = saturate(block_number + s.params.voting_duration_blocks) as u64;
        let p = new_proposal(caller, kind, description, timestamp, voting_end);
        (
            Ok(s.next_proposal_id() as u64),
            GovernanceModel {
                proposals: s.proposals.push(p),
                queue_times: s.queue_times.push(0),
                ..s
            },
        )
    }
}

/// Casting a vote of `voting_power` for (`support`) or against proposal `id`.
pub open spec fn vote_step(
    s: GovernanceModel,
    caller: [u8; 32],
    block_number: u64,
    id: u64,
    support: bool,
    voting_power: u64,
) -> (Result<(), Error>, GovernanceModel) {
    if let Some(e) = gate(s) {
        (Err(e), s)
    } else if !s.has_proposal(id) {
        (Err(Error::ProposalNotFound), s)
    } else if block_number > s.proposal(id).voting_end || s.proposal(id).executed {
        (Err(Error::ProposalExpired), s)
    } else if s.has_voted(id, caller) {
        (Err(Error::AlreadyVoted), s)
    } else if voting_power == 0 {
        (Err(Error::InsufficientVotingPower), s)
    } else {
        let p = s.proposal(id);
        let record = VoteRecord {
            proposal_id: id,
            voter: caller,
            support,
            weight: counted_weight(p.total_voting_power, voting_power),
        };
        (
            Ok(()),
            GovernanceModel { votes: s.votes.push(record), ..s.with_proposal(id, with_vote(p, support, voting_power)) },
        )
    }
}

/// The checks shared by queueing and executing: the proposal exists, its
/// voting window has closed, and it is not yet executed.
pub open spec fn closed_gate(s: GovernanceModel, block_number: u64, id: u64) -> Option<Error> {
    if let Some(e) = gate(s) {
        Some(e)
    } else if !s.has_proposal(id) {
        Some(Error::ProposalNotFound)
    } else if block_number <= s.proposal(id).voting_end {
        Some(Error::ProposalNotExpired)
    } else if s.proposal(id).executed {
        Some(Error::ProposalAlreadyExecuted)
    } else {
        None
    }
}

/// Queueing proposal `id`; a second call keeps the first queue time. A queue
/// at timestamp 0 is refused, since 0 stands for "not queued".
pub open spec fn queue_step(
    s: GovernanceModel,
    block_number: u64,
    timestamp: u64,
    id: u64,
) -> (Result<ProposalQueued, Error>, GovernanceModel) {
    if let Some(e) = closed_gate(s, block_number, id) {
        (Err(e), s)
    } else {
        let t = if s.queued_at(id) != 0 { s.queued_at(id) } else { timestamp };
        if t == 0 {
            (Err(Error::InvalidParameter), s)
        } else {
            let record = ProposalQueued {
                proposal_id: id,
                queued_at: t,
                execute_after: ready_at_spec(t, s.params.timelock_seconds) as u64,
            };
            (Ok(record), GovernanceModel { queue_times: s.queue_times.update(id - 1, t), ..s })
        }
    }
}

/// The first half of executing proposal `id`: every check and decision up to
/// the effect.
pub open spec fn begin_step(
    s: GovernanceModel,
    block_number: u64,
    timestamp: u64,
    id: u64,
    total_supply: u64,
) -> (Result<ExecutionStep, Error>, GovernanceModel) {
    if let Some(e) = closed_gate(s, block_number, id) {
        (Err(e), s)
    } else {
        let p = s.proposal(id);
        match tally(p, total_supply, s.params.quorum_percentage) {
            Err(e) => (Err(e), s),
            Ok(TallyOutcome::Passed) => {
                if p.execution_failures >= s.params.max_execution_attempts {
                    (Err(Error::ExecutionFailed), s)
                } else {
                    let q = s.queued_at(id);
                    if q == 0 {
                        (Err(Error::NotQueued), s)
                    } else if (timestamp as int) < ready_at_spec(q, s.params.timelock_seconds) {
                        (Err(Error::TimelockNotElapsed), s)
                    } else if !has_side_effect(p.proposal_type) {
                        (Ok(ExecutionStep::Executed), s.with_proposal(id, completed(p)))
                    } else {
                        (
                            Ok(ExecutionStep::Dispatch(p.proposal_type)),
                            GovernanceModel { entered: true, executing: Some(id), ..s },
                        )
                    }
                }
            }
            Ok(_) => (Ok(ExecutionStep::Rejected), s.with_proposal(id, closed(p))),
        }
    }
}

/// The second half of executing proposal `id`, given whether its effect took hold.
pub open spec fn complete_step(s: GovernanceModel, id: u64, effect_ok: bool) -> (Result<ProposalExecuted, Error>, GovernanceModel) {
    if !(s.entered && s.executing == Some(id)) {
        (Err(Error::Unauthorized), s)
    } else {
        let s1 = GovernanceModel { entered: false, executing: None, ..s };
        let p = s.proposal(id);
        if effect_ok {
            (Ok(ProposalExecuted { proposal_id: id, successful: true }), s1.with_proposal(id, completed(p)))
        } else {
            (Err(Error::ExecutionFailed), s1.with_proposal(id, failed_once(p)))
        }
    }
}

/// A whole execution of proposal `id`, given whether its effect, if it has one, took hold.
pub open spec fn execute_step(
    s: GovernanceModel,
    block_number: u64,
    timestamp: u64,
    id: u64,
    total_supply: u64,
    effect_ok: bool,
) -> (Result<ProposalExecuted, Error>, GovernanceModel) {
    let (r, s1) = begin_step(s, block_number, timestamp, id, total_supply);
    match r {
        Err(e) => (Err(e), s1),
        Ok(ExecutionStep::Rejected) => (Ok(ProposalExecuted { proposal_id: id, successful: false }), s1),
        Ok(ExecutionStep::Executed) => (Ok(ProposalExecuted { proposal_id: id, successful: true }), s1),
        Ok(ExecutionStep::Dispatch(_)) => complete_step(s1, id, effect_ok),
    }
}

/// The check on owner-only calls: the reentrancy flag, then the caller.
pub open spec fn owner_gate(s: GovernanceModel, caller: [u8; 32]) -> Option<Error> {
    if s.entered || caller != s.owner {
        Some(Error::Unauthorized)
    } else {
        None
    }
}

/// Pausing: open to the owner and the guardians.
pub open spec fn pause_step(s: GovernanceModel, caller: [u8; 32]) -> (Result<(), Error>, GovernanceModel) {
    if s.entered || !s.is_guardian(caller) {
        (Err(Error::Unauthorized), s)
    } else {
        (Ok(()), GovernanceModel { paused: true, ..s })
    }
}

/// Unpausing: open to the owner alone.
pub open spec fn unpause_step(s: GovernanceModel, caller: [u8; 32]) -> (Result<(), Error>, GovernanceModel) {
    if let Some(e) = owner_gate(s, caller) {
        (Err(e), s)
    } else {
        (Ok(()), GovernanceModel { paused: false, ..s })
    }
}

pub open spec fn add_guardian_step(s: GovernanceModel, caller: [u8; 32], account: [u8; 32]) -> (Result<(), Error>, GovernanceModel) {
    if let Some(e) = owner_gate(s, caller) {
        (Err(e), s)
    } else if s.is_guardian(account) {
        (Ok(()), s)
    } else {
        (Ok(()), GovernanceModel { guardians: s.guardians.push(account), ..s })
    }
}

/// Removing a guardian; the owner stays one and cannot be removed.
pub open spec fn remove_guardian_step(s: GovernanceModel, caller: [u8; 32], account: [u8; 32]) -> (Result<(), Error>, GovernanceModel) {
    if let Some(e) = owner_gate(s, caller) {
        (Err(e), s)
    } else if account == s.owner {
        (Err(Error::InvalidParameter), s)
    } else if s.guardians.contains(account) {
        (Ok(()), GovernanceModel { guardians: s.guardians.remove(s.guardians.index_of(account)), ..s })
    } else {
        (Ok(()), s)
    }
}

/// Handing the engine to `new_owner`; owner only. The previous owner stays a
/// guardian.
pub open spec fn transfer_ownership_step(s: GovernanceModel, caller: [u8; 32], new_owner: [u8; 32]) -> (Result<(), Error>, GovernanceModel) {
    if let Some(e) = owner_gate(s, caller) {
        (Err(e), s)
    } else if new_owner == s.owner {
        (Ok(()), s)
    } else {
        let guardians = if s.guardians.contains(s.owner) { s.guardians } else { s.guardians.push(s.owner) };
        (Ok(()), GovernanceModel { owner: new_owner, guardians, ..s })
    }
}

pub open spec fn set_timelock_step(s: GovernanceModel, caller: [u8; 32], seconds: u64) -> (Result<TimelockUpdated, Error>, GovernanceModel) {
    if let Some(e) = owner_gate(s, caller) {
        (Err(e), s)
    } else {
        (
            Ok(TimelockUpdated { old_seconds: s.params.timelock_seconds, new_seconds: seconds }),
            GovernanceModel { params: GovernanceParams { timelock_seconds: seconds, ..s.params }, ..s },
        )
    }
}

pub open spec fn set_params_step(s: GovernanceModel, caller: [u8; 32], params: GovernanceParams) -> (Result<(), Error>, GovernanceModel) {
    if let Some(e) = owner_gate(s, caller) {
        (Err(e), s)
    } else {
        (Ok(()), GovernanceModel { params, ..s })
    }
}

} // verus!
