use vstd::prelude::*;
use crate::error::Error;
use crate::types::{Proposal, ProposalType};

verus! {

/// Share of the participating weight, in percent, that a treasury spend must exceed.
pub const SUPERMAJORITY_PERCENT: u64 = 66;

/// Outcome of counting a proposal's votes.
#[derive(Clone, Copy, Debug, PartialEq, Eq, Structural)]
pub enum TallyOutcome {
    Passed,
    FailedQuorum,
    FailedMajority,
}

/// Participating weight needed for a vote to count.
pub open spec fn quorum_required_spec(total_supply: u64, quorum_percentage: u32) -> int {
    (total_supply as int * quorum_percentage as int) / 100
}

/// Yes weight that a treasury spend must exceed.
pub open spec fn supermajority_threshold_spec(participating: u64) -> int {
    (participating as int * SUPERMAJORITY_PERCENT as int) / 100
}

/// Whether the yes side wins: by supermajority for a treasury spend, else by simple majority.
pub open spec fn majority_reached(p: Proposal) -> bool {
    if p.proposal_type is TreasurySpend {
        p.yes_votes > supermajority_threshold_spec(p.total_voting_power)
    } else {
        p.yes_votes > p.no_votes
    }
}

pub open spec fn tally(p: Proposal, total_supply: u64, quorum_percentage: u32) -> Result<TallyOutcome, Error> {
    if total_supply == 0 {
        Err(Error::InvalidQuorum)
    } else if (p.total_voting_power as int) < quorum_required_spec(total_supply, quorum_percentage) {
        Ok(TallyOutcome::FailedQuorum)
    } else if majority_reached(p) {
        Ok(TallyOutcome::Passed)
    } else {
        Ok(TallyOutcome::FailedMajority)
    }
}

/// `total_supply * quorum_percentage / 100`, computed without overflow.
pub fn quorum_required(total_supply: u64, quorum_percentage: u32) -> (r: u128)
    ensures
        r == quorum_required_spec(total_supply, quorum_percentage),
{
    let t = total_supply as u128;
    let q = quorum_percentage as u128;
    assert(t * q <= u64::MAX as int * u32::MAX as int) by (nonlinear_arith)
        requires
            t <= u64::MAX,
            q <= u32::MAX,
    ;
    t * q / 100
}

/// 66% of the participating weight, rounded down.
pub fn supermajority_threshold(participating: u64) -> (r: u64)
    ensures
        r == supermajority_threshold_spec(participating),
{
    let w = participating as u128 * 66u128 / 100u128;
    w as u64
}

/// Decides a proposal against the quorum and majority rules.
pub fn evaluate(proposal: &Proposal, total_supply: u64, quorum_percentage: u32) -> (r: Result<TallyOutcome, Error>)
    ensures
        r == tally(*proposal, total_supply, quorum_percentage),
{
    if total_supply == 0 {
        return Err(Error::InvalidQuorum);
    }
    if (proposal.total_voting_power as u128) < quorum_required(total_supply, quorum_percentage) {
        return Ok(TallyOutcome::FailedQuorum);
    }
    let reached = match proposal.proposal_type {
        ProposalType::TreasurySpend(_, _) => proposal.yes_votes > supermajority_threshold(proposal.total_voting_power),
        _ => proposal.yes_votes > proposal.no_votes,
    };
    if reached {
        Ok(TallyOutcome::Passed)
    } else {
        Ok(TallyOutcome::FailedMajority)
    }
}

} // verus!
