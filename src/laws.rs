use vstd::prelude::*;
use crate::error::Error;
use crate::model::{
    add_guardian_step, begin_step, closed, closed_gate, complete_step, create_step, execute_step,
    gate, pause_step, queue_step, remove_guardian_step, set_params_step, set_timelock_step, transfer_ownership_step, unpause_step, vote_step,
    ExecutionStep, GovernanceModel, ProposalExecuted,
};
use crate::tally::quorum_required_spec;
use crate::types::{GovernanceParams, ProposalType};

verus! {

/// In every well-formed state, and so after every operation, each proposal's
/// yes and no weights add up to its participating weight.
pub proof fn lemma_tally_balances(s: GovernanceModel, id: u64)
    requires
        s.wf(),
        s.has_proposal(id),
    ensures
        s.proposal(id).yes_votes + s.proposal(id).no_votes == s.proposal(id).total_voting_power,
{
    assert(s.proposals[id - 1] == s.proposal(id));
}

/// A voter who has voted on a proposal cannot vote on it again: the call
/// fails, and once the reentrancy and pause checks pass and voting is still
/// open, it fails with `AlreadyVoted` and changes nothing.
pub proof fn lemma_second_vote_refused(
    s: GovernanceModel,
    voter: [u8; 32],
    block_number: u64,
    id: u64,
    support: bool,
    voting_power: u64,
)
    requires
        s.wf(),
        s.has_voted(id, voter),
    ensures
        vote_step(s, voter, block_number, id, support, voting_power).0 is Err,
        vote_step(s, voter, block_number, id, support, voting_power).1 == s,
        gate(s) is None && block_number <= s.proposal(id).voting_end && !s.proposal(id).executed
            ==> vote_step(s, voter, block_number, id, support, voting_power).0 == Err::<(), Error>(Error::AlreadyVoted),
{
    let i = choose|i: int| 0 <= i < s.votes.len() && #[trigger] s.votes[i].proposal_id == id && s.votes[i].voter == voter;
    assert(1 <= s.votes[i].proposal_id <= s.proposals.len());
}

/// A successful vote is recorded, and no operation forgets a vote: the vote
/// log of every step starts with the log before it.
pub proof fn lemma_votes_are_kept(
    s: GovernanceModel,
    caller: [u8; 32],
    block_number: u64,
    timestamp: u64,
    id: u64,
    support: bool,
    voting_power: u64,
    kind: ProposalType,
    description: String,
    total_supply: u64,
    effect_ok: bool,
    account: [u8; 32],
    seconds: u64,
    params: GovernanceParams,
)
    requires
        s.wf(),
    ensures
        vote_step(s, caller, block_number, id, support, voting_power).0 is Ok
            ==> vote_step(s, caller, block_number, id, support, voting_power).1.has_voted(id, caller),
        s.votes.is_prefix_of(vote_step(s, caller, block_number, id, support, voting_power).1.votes),
        s.votes.is_prefix_of(create_step(s, caller, block_number, timestamp, kind, description, voting_power).1.votes),
        s.votes.is_prefix_of(queue_step(s, block_number, timestamp, id).1.votes),
        s.votes.is_prefix_of(execute_step(s, block_number, timestamp, id, total_supply, effect_ok).1.votes),
        s.votes.is_prefix_of(begin_step(s, block_number, timestamp, id, total_supply).1.votes),
        s.votes.is_prefix_of(complete_step(s, id, effect_ok).1.votes),
        s.votes.is_prefix_of(pause_step(s, caller).1.votes),
        s.votes.is_prefix_of(unpause_step(s, caller).1.votes),
        s.votes.is_prefix_of(add_guardian_step(s, caller, account).1.votes),
        s.votes.is_prefix_of(remove_guardian_step(s, caller, account).1.votes),
        s.votes.is_prefix_of(set_timelock_step(s, caller, seconds).1.votes),
        s.votes.is_prefix_of(set_params_step(s, caller, params).1.votes),
        s.votes.is_prefix_of(transfer_ownership_step(s, caller, account).1.votes),
{
    let t = vote_step(s, caller, block_number, id, support, voting_power).1;
    if vote_step(s, caller, block_number, id, support, voting_power).0 is Ok {
        assert(t.votes[s.votes.len() as int].proposal_id == id);
    }
    let b = begin_step(s, block_number, timestamp, id, total_supply).1;
    assert(b.votes == s.votes);
}

/// A recorded vote stays recorded in every later state whose vote log
/// extends the earlier one, as the log of every step does.
pub proof fn lemma_vote_stays_recorded(s: GovernanceModel, t: GovernanceModel, id: u64, voter: [u8; 32])
    requires
        s.has_voted(id, voter),
        s.votes.is_prefix_of(t.votes),
    ensures
        t.has_voted(id, voter),
{
    let i = choose|i: int| 0 <= i < s.votes.len() && #[trigger] s.votes[i].proposal_id == id && s.votes[i].voter == voter;
    assert(t.votes[i] == s.votes[i]);
    assert(t.votes[i].proposal_id == id);
}

/// Executing a proposal whose voting window is still open returns
/// `ProposalNotExpired` and leaves the state as it was. (A paused engine, or
/// one with a call in progress, refuses earlier, with `ContractPaused` or
/// `Unauthorized`.)
pub proof fn lemma_execute_before_deadline(
    s: GovernanceModel,
    block_number: u64,
    timestamp: u64,
    id: u64,
    total_supply: u64,
    effect_ok: bool,
)
    requires
        gate(s) is None,
        s.has_proposal(id),
        block_number <= s.proposal(id).voting_end,
    ensures
        execute_step(s, block_number, timestamp, id, total_supply, effect_ok) == (
            Err::<ProposalExecuted, Error>(Error::ProposalNotExpired),
            s,
        ),
{
}

/// Executing a closed proposal whose participating weight falls short of the
/// quorum rejects it for good (executed, no longer active) without an effect,
/// once the checks before the tally pass: no call in progress, not paused,
/// voting closed, not yet executed.
pub proof fn lemma_quorum_shortfall_rejects(
    s: GovernanceModel,
    block_number: u64,
    timestamp: u64,
    id: u64,
    total_supply: u64,
    effect_ok: bool,
)
    requires
        s.wf(),
        closed_gate(s, block_number, id) is None,
        (s.proposal(id).total_voting_power as int) < quorum_required_spec(total_supply, s.params.quorum_percentage),
    ensures
        begin_step(s, block_number, timestamp, id, total_supply) == (
            Ok::<ExecutionStep, Error>(ExecutionStep::Rejected),
            s.with_proposal(id, closed(s.proposal(id))),
        ),
        execute_step(s, block_number, timestamp, id, total_supply, effect_ok) == (
            Ok::<ProposalExecuted, Error>(ProposalExecuted { proposal_id: id, successful: false }),
            s.with_proposal(id, closed(s.proposal(id))),
        ),
        execute_step(s, block_number, timestamp, id, total_supply, effect_ok).1.proposal(id).executed,
        !execute_step(s, block_number, timestamp, id, total_supply, effect_ok).1.proposal(id).active,
{
    assert(total_supply != 0);
}

/// Queueing a proposal twice gives the same queue time both times, and the
/// second call changes nothing (whenever both calls succeed; a paused engine
/// refuses with `ContractPaused`).
pub proof fn lemma_queue_idempotent(
    s: GovernanceModel,
    block1: u64,
    time1: u64,
    block2: u64,
    time2: u64,
    id: u64,
)
    requires
        s.wf(),
        queue_step(s, block1, time1, id).0 is Ok,
        queue_step(queue_step(s, block1, time1, id).1, block2, time2, id).0 is Ok,
    ensures
        queue_step(queue_step(s, block1, time1, id).1, block2, time2, id).0
            == queue_step(s, block1, time1, id).0,
        queue_step(queue_step(s, block1, time1, id).1, block2, time2, id).1
            == queue_step(s, block1, time1, id).1,
{
    let s1 = queue_step(s, block1, time1, id).1;
    assert(s1.queued_at(id) != 0);
    assert(s1.queue_times.update(id - 1, s1.queued_at(id)) =~= s1.queue_times);
}

/// While a proposal's effect is being carried out, every nested governance
/// call is refused with `Unauthorized` and changes nothing; reporting the
/// effect's outcome then clears the reentrancy flag.
pub proof fn lemma_nested_calls_refused(
    s: GovernanceModel,
    block_number: u64,
    timestamp: u64,
    id: u64,
    total_supply: u64,
    caller: [u8; 32],
    other_id: u64,
    support: bool,
    voting_power: u64,
    kind: ProposalType,
    description: String,
    effect_ok: bool,
)
    requires
        s.wf(),
        begin_step(s, block_number, timestamp, id, total_supply).0 matches Ok(ExecutionStep::Dispatch(_)),
    ensures
        ({
            let s1 = begin_step(s, block_number, timestamp, id, total_supply).1;
            &&& s1.entered
            &&& vote_step(s1, caller, block_number, other_id, support, voting_power) == (Err::<(), Error>(Error::Unauthorized), s1)
            &&& create_step(s1, caller, block_number, timestamp, kind, description, voting_power).0 == Err::<u64, Error>(Error::Unauthorized)
            &&& create_step(s1, caller, block_number, timestamp, kind, description, voting_power).1 == s1
            &&& queue_step(s1, block_number, timestamp, other_id).1 == s1
            &&& queue_step(s1, block_number, timestamp, other_id).0 is Err
            &&& begin_step(s1, block_number, timestamp, other_id, total_supply) == (Err::<ExecutionStep, Error>(Error::Unauthorized), s1)
            &&& complete_step(vote_step(s1, caller, block_number, other_id, support, voting_power).1, id, effect_ok)
                == complete_step(s1, id, effect_ok)
            &&& complete_step(s1, id, effect_ok).0 != Err::<ProposalExecuted, Error>(Error::Unauthorized)
            &&& !complete_step(s1, id, effect_ok).1.entered
        }),
{
}

} // verus!
