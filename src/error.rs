use vstd::prelude::*;

verus! {

/// Why a governance call was refused.
#[derive(Clone, Copy, Debug, PartialEq, Eq, Structural)]
pub enum Error {
    /// The caller lacks the role, or a call is already in progress.
    Unauthorized,
    ProposalNotFound,
    /// The voting window has closed.
    ProposalExpired,
    /// The voting window is still open.
    ProposalNotExpired,
    AlreadyVoted,
    InsufficientVotingPower,
    ProposalAlreadyExecuted,
    /// The total supply is zero, so no quorum can be computed.
    InvalidQuorum,
    InvalidDuration,
    /// The effect failed, or the proposal has used up its attempts.
    ExecutionFailed,
    NotQueued,
    TimelockNotElapsed,
    /// The system is paused.
    ContractPaused,
    /// A malformed payload or description, or no proposal id left.
    InvalidParameter,
}

} // verus!
