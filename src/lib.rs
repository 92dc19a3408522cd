//! A governance engine for a shared power grid: account holders propose
//! changes, vote with their token weight, and passed proposals run after a
//! timelock against the subsystems they change.

use vstd::prelude::*;

pub mod constants;
pub mod error;
pub mod governance;
pub mod laws;
pub mod model;
pub mod tally;
pub mod timelock;
pub mod traits;
pub mod types;

pub use constants::{native_to_tokens, tokens_to_native};
pub use error::Error;
pub use governance::Governance;
pub use model::{ExecutionStep, ProposalExecuted, ProposalQueued, TimelockUpdated};
pub use tally::{evaluate, quorum_required, TallyOutcome};
pub use traits::{DeviceRegistryInterface, ProposalEffects, RegistryInterface, TokenInterface};
pub use types::{CallContext, GovernanceParams, Proposal, ProposalType, VoteRecord};

verus! {

} // verus!
