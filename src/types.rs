use vstd::prelude::*;

verus! {

/// Token amounts.
pub type Balance = u128;

/// Milliseconds since the epoch.
pub type Timestamp = u64;

/// Longest proposal description accepted, in characters.
pub const MAX_DESCRIPTION_LEN: usize = 512;

/// Highest reputation threshold a proposal may set.
pub const MAX_REPUTATION_THRESHOLD: u32 = 100;

/// What a proposal asks for once it has passed.
#[derive(Clone, Debug, PartialEq, Eq)]
pub enum ProposalType {
    UpdateMinStake(Balance),
    UpdateCompensationRate(Balance),
    UpdateReputationThreshold(u32),
    TreasurySpend([u8; 32], Balance),
    SystemUpgrade,
    Other(String),
    /// Grants or revokes the token's minter role.
    SetTokenMinter([u8; 32], bool),
    SetRegistryAuthorizedCaller([u8; 32], bool),
    SetGridAuthorizedCaller([u8; 32], bool),
}

/// A proposal record. Records are never deleted.
#[derive(Clone, Debug, PartialEq, Eq)]
pub struct Proposal {
    pub proposer: [u8; 32],
    pub proposal_type: ProposalType,
    pub description: String,
    pub yes_votes: u64,
    pub no_votes: u64,
    pub total_voting_power: u64,
    pub created_at: Timestamp,
    pub voting_end: u64,
    pub executed: bool,
    pub active: bool,
    /// Failed attempts at carrying out the proposal's effect.
    pub execution_failures: u32,
}

/// One cast vote; its weight is frozen when the vote is cast.
#[derive(Clone, Copy, Debug, PartialEq, Eq)]
pub struct VoteRecord {
    pub proposal_id: u64,
    pub voter: [u8; 32],
    pub support: bool,
    pub weight: u64,
}

/// Who calls and when: the block height orders voting, the timestamp the timelock.
#[derive(Clone, Copy, Debug, PartialEq, Eq)]
pub struct CallContext {
    pub caller: [u8; 32],
    pub block_number: u64,
    pub timestamp: Timestamp,
}

/// Parameters that the owner may change.
#[derive(Clone, Copy, Debug, PartialEq, Eq)]
pub struct GovernanceParams {
    /// Least voting power that lets an account propose.
    pub min_voting_power: Balance,
    /// Length of the voting window, in blocks.
    pub voting_duration_blocks: u64,
    /// Share of the total supply that must take part, in percent.
    pub quorum_percentage: u32,
    /// Delay between queueing and execution, in seconds.
    pub timelock_seconds: u64,
    /// Failed effect attempts after which a proposal can no longer be executed.
    pub max_execution_attempts: u32,
}

/// Whether the proposal's kind carries a well-formed payload.
pub open spec fn kind_is_valid(kind: ProposalType) -> bool {
    match kind {
        ProposalType::UpdateMinStake(v) => v > 0,
        ProposalType::UpdateCompensationRate(v) => v > 0,
        ProposalType::UpdateReputationThreshold(t) => t <= MAX_REPUTATION_THRESHOLD,
        ProposalType::TreasurySpend(_, amount) => amount > 0,
        _ => true,
    }
}

/// Whether carrying out a proposal of this kind calls another subsystem.
pub open spec fn has_side_effect(kind: ProposalType) -> bool {
    !(kind is SystemUpgrade || kind is Other)
}

/// Whether a description is neither empty nor too long.
pub open spec fn description_is_valid(d: Seq<char>) -> bool {
    0 < d.len() <= MAX_DESCRIPTION_LEN
}

pub fn validate_kind(kind: &ProposalType) -> (r: bool)
    ensures
        r == kind_is_valid(*kind),
{
    match kind {
        ProposalType::UpdateMinStake(v) => *v > 0,
        ProposalType::UpdateCompensationRate(v) => *v > 0,
        ProposalType::UpdateReputationThreshold(t) => *t <= MAX_REPUTATION_THRESHOLD,
        ProposalType::TreasurySpend(_, amount) => *amount > 0,
        _ => true,
    }
}

pub fn validate_description(description: &String) -> (r: bool)
    ensures
        r == description_is_valid(description@),
{
    let n = description.as_str().unicode_len();
    0 < n && n <= MAX_DESCRIPTION_LEN
}

pub fn is_side_effecting(kind: &ProposalType) -> (r: bool)
    ensures
        r == has_side_effect(*kind),
{
    match kind {
        ProposalType::SystemUpgrade => false,
        ProposalType::Other(_) => false,
        _ => true,
    }
}

/// Compares two account identities byte by byte.
pub fn same_account(a: &[u8; 32], b: &[u8; 32]) -> (r: bool)
    ensures
        r == (*a == *b),
{
    let mut i: usize = 0;
    while i < 32
        invariant
            0 <= i <= 32,
            forall|j: int| 0 <= j < i ==> a@[j] == b@[j],
        decreases 32 - i,
    {
        if a[i] != b[i] {
            return false;
        }
        i = i + 1;
    }
    proof {
        assert(a@ =~= b@);
        vstd::array::axiom_array_ext_equal(*a, *b);
    }
    true
}

impl ProposalType {
    /// A copy equal to `self`.
    pub fn duplicate(&self) -> (r: ProposalType)
        ensures
            r == *self,
    {
        match self {
            ProposalType::UpdateMinStake(v) => ProposalType::UpdateMinStake(*v),
            ProposalType::UpdateCompensationRate(v) => ProposalType::UpdateCompensationRate(*v),
            ProposalType::UpdateReputationThreshold(t) => ProposalType::UpdateReputationThreshold(*t),
            ProposalType::TreasurySpend(to, amount) => ProposalType::TreasurySpend(*to, *amount),
            ProposalType::SystemUpgrade => ProposalType::SystemUpgrade,
            ProposalType::Other(s) => ProposalType::Other(s.clone()),
            ProposalType::SetTokenMinter(a, b) => ProposalType::SetTokenMinter(*a, *b),
            ProposalType::SetRegistryAuthorizedCaller(a, b) => ProposalType::SetRegistryAuthorizedCaller(*a, *b),
            ProposalType::SetGridAuthorizedCaller(a, b) => ProposalType::SetGridAuthorizedCaller(*a, *b),
        }
    }
}

impl Proposal {
    /// A copy equal to `self`.
    pub fn duplicate(&self) -> (r: Proposal)
        ensures
            r == *self,
    {
        Proposal {
            proposer: self.proposer,
            proposal_type: self.proposal_type.duplicate(),
            description: self.description.clone(),
            yes_votes: self.yes_votes,
            no_votes: self.no_votes,
            total_voting_power: self.total_voting_power,
            created_at: self.created_at,
            voting_end: self.voting_end,
            executed: self.executed,
            active: self.active,
            execution_failures: self.execution_failures,
        }
    }
}

} // verus!
