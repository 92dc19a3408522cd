use powergrid_governance::traits::{get_total_voting_power, get_voting_power, RequestLog};
use powergrid_governance::{
    CallContext, DeviceRegistryInterface, Error, ExecutionStep, Governance, GovernanceParams,
    ProposalEffects, ProposalExecuted, ProposalType, TokenInterface,
};

const OWNER: [u8; 32] = [1u8; 32];
const PROPOSER: [u8; 32] = [2u8; 32];
const RECIPIENT: [u8; 32] = [9u8; 32];

fn account(n: u8) -> [u8; 32] {
    [n; 32]
}

fn at(caller: [u8; 32], block_number: u64, timestamp: u64) -> CallContext {
    CallContext { caller, block_number, timestamp }
}

/// An in-memory stand-in for the registry, the grid service and the treasury.
struct FakeSystem {
    min_stake: u128,
    compensation_rate: u128,
    reputation_threshold: u32,
    transfers: Vec<([u8; 32], u128)>,
    transfer_calls: u32,
    fail_transfers: bool,
    minters: Vec<[u8; 32]>,
}

impl FakeSystem {
    fn new() -> FakeSystem {
        FakeSystem {
            min_stake: 1000,
            compensation_rate: 100,
            reputation_threshold: 50,
            transfers: Vec::new(),
            transfer_calls: 0,
            fail_transfers: false,
            minters: Vec::new(),
        }
    }
}

impl ProposalEffects for FakeSystem {
    // A spec function: only the verifier reads it, no code calls it.
    fn requests(&self) -> RequestLog {
        unreachable!()
    }

    fn update_min_stake(&mut self, value: u128) -> bool {
        if value == 0 {
            return false;
        }
        self.min_stake = value;
        true
    }

    fn update_default_compensation_rate(&mut self, value: u128) -> bool {
        self.compensation_rate = value;
        true
    }

    fn update_reputation_threshold(&mut self, value: u32) -> bool {
        self.reputation_threshold = value;
        true
    }

    fn transfer(&mut self, to: [u8; 32], amount: u128) -> bool {
        self.transfer_calls += 1;
        if self.fail_transfers {
            return false;
        }
        self.transfers.push((to, amount));
        true
    }

    fn set_token_minter(&mut self, account: [u8; 32], enabled: bool) -> bool {
        if enabled {
            self.minters.push(account);
        } else {
            self.minters.retain(|m| *m != account);
        }
        true
    }

    fn set_registry_authorized_caller(&mut self, _account: [u8; 32], _enabled: bool) -> bool {
        true
    }

    fn set_grid_authorized_caller(&mut self, _account: [u8; 32], _enabled: bool) -> bool {
        true
    }
}

impl DeviceRegistryInterface for FakeSystem {
    fn get_device_count(&self) -> u64 {
        0
    }

    fn get_min_stake(&self) -> u128 {
        self.min_stake
    }
}

/// Min power 10, a ten-block window, quorum 25%, a 60 s timelock.
fn engine() -> Governance {
    let mut gov = Governance::new(OWNER, account(20), account(21), account(22), 10, 10, 25);
    gov.set_timelock_seconds(OWNER, 60).unwrap();
    gov
}

/// Creates a proposal at block 1 (voting ends at block 11) and casts the given votes at block 5.
fn proposal_with_votes(gov: &mut Governance, kind: ProposalType, votes: &[(u8, bool, u64)]) -> u64 {
    let id = gov.create_proposal(at(PROPOSER, 1, 1_000), kind, "payout".to_string(), 100).unwrap();
    for (voter, support, weight) in votes {
        gov.vote(at(account(*voter), 5, 2_000), id, *support, String::new(), *weight).unwrap();
    }
    id
}

#[test]
fn treasury_spend_passes_with_supermajority() {
    let mut gov = engine();
    let mut system = FakeSystem::new();
    let id = proposal_with_votes(
        &mut gov,
        ProposalType::TreasurySpend(RECIPIENT, 500),
        &[(30, true, 100), (31, true, 100), (32, true, 100), (33, false, 50)],
    );
    let p = gov.get_proposal(id).unwrap();
    assert_eq!((p.yes_votes, p.no_votes, p.total_voting_power), (300, 50, 350));

    let queued = gov.queue_proposal(at(PROPOSER, 12, 10_000), id).unwrap();
    assert_eq!(queued.queued_at, 10_000);
    assert_eq!(queued.execute_after, 70_000);
    assert_eq!(
        gov.execute_proposal(at(PROPOSER, 12, 69_999), id, 1000, &mut system),
        Err(Error::TimelockNotElapsed)
    );
    let r = gov.execute_proposal(at(PROPOSER, 12, 70_000), id, 1000, &mut system);
    assert_eq!(r, Ok(ProposalExecuted { proposal_id: id, successful: true }));
    assert_eq!(system.transfers, vec![(RECIPIENT, 500)]);
    let p = gov.get_proposal(id).unwrap();
    assert!(p.executed);
    assert!(!p.active);
}

#[test]
fn treasury_spend_below_supermajority_is_rejected() {
    let mut gov = engine();
    let mut system = FakeSystem::new();
    let id = proposal_with_votes(
        &mut gov,
        ProposalType::TreasurySpend(RECIPIENT, 500),
        &[(30, true, 100), (31, true, 100), (33, false, 150)],
    );
    gov.queue_proposal(at(PROPOSER, 12, 10_000), id).unwrap();
    let r = gov.execute_proposal(at(PROPOSER, 12, 70_000), id, 1000, &mut system);
    assert_eq!(r, Ok(ProposalExecuted { proposal_id: id, successful: false }));
    assert!(system.transfers.is_empty());
    assert_eq!(system.transfer_calls, 0);
    let p = gov.get_proposal(id).unwrap();
    assert!(p.executed);
    assert!(!p.active);
    assert_eq!(
        gov.execute_proposal(at(PROPOSER, 13, 80_000), id, 1000, &mut system),
        Err(Error::ProposalAlreadyExecuted)
    );
}

#[test]
fn failing_transfer_exhausts_attempts() {
    let mut gov = engine();
    let mut system = FakeSystem::new();
    system.fail_transfers = true;
    let id = proposal_with_votes(
        &mut gov,
        ProposalType::TreasurySpend(RECIPIENT, 500),
        &[(30, true, 300), (33, false, 50)],
    );
    assert_eq!(gov.governance_params().max_execution_attempts, 3);
    gov.queue_proposal(at(PROPOSER, 12, 10_000), id).unwrap();
    for attempt in 1..=3u32 {
        let r = gov.execute_proposal(at(PROPOSER, 12, 70_000), id, 1000, &mut system);
        assert_eq!(r, Err(Error::ExecutionFailed));
        assert_eq!(gov.get_proposal(id).unwrap().execution_failures, attempt);
        assert!(!gov.is_entered());
    }
    assert_eq!(system.transfer_calls, 3);
    let r = gov.execute_proposal(at(PROPOSER, 12, 70_000), id, 1000, &mut system);
    assert_eq!(r, Err(Error::ExecutionFailed));
    assert_eq!(system.transfer_calls, 3);
    let p = gov.get_proposal(id).unwrap();
    assert!(p.active);
    assert!(!p.executed);
    assert_eq!(p.execution_failures, 3);
}

#[test]
fn min_stake_update_reaches_registry() {
    let mut gov = engine();
    let mut system = FakeSystem::new();
    let id = proposal_with_votes(&mut gov, ProposalType::UpdateMinStake(5000), &[(30, true, 300)]);
    gov.queue_proposal(at(PROPOSER, 12, 10_000), id).unwrap();
    gov.execute_proposal(at(PROPOSER, 20, 70_000), id, 1000, &mut system).unwrap();
    assert_eq!(system.get_min_stake(), 5000);
}

#[test]
fn nested_vote_during_effect_is_refused() {
    let mut gov = engine();
    let id = proposal_with_votes(&mut gov, ProposalType::UpdateMinStake(5000), &[(30, true, 300)]);
    let other = gov.create_proposal(at(PROPOSER, 2, 1_000), ProposalType::SystemUpgrade, "upgrade".to_string(), 100).unwrap();
    gov.queue_proposal(at(PROPOSER, 12, 10_000), id).unwrap();

    let step = gov.begin_execution(at(PROPOSER, 12, 70_000), id, 1000).unwrap();
    assert_eq!(step, ExecutionStep::Dispatch(ProposalType::UpdateMinStake(5000)));
    assert!(gov.is_entered());
    // The collaborator calls back while its effect is in progress.
    assert_eq!(gov.vote(at(account(40), 5, 2_000), other, true, String::new(), 10), Err(Error::Unauthorized));
    assert_eq!(gov.execute_proposal(at(PROPOSER, 12, 70_000), id, 1000, &mut FakeSystem::new()), Err(Error::Unauthorized));
    assert!(gov.is_entered());
    assert!(!gov.has_voted(other, account(40)));

    assert_eq!(gov.complete_execution(id, true), Ok(ProposalExecuted { proposal_id: id, successful: true }));
    assert!(!gov.is_entered());
    assert!(gov.get_proposal(id).unwrap().executed);
    assert_eq!(gov.vote(at(account(40), 5, 2_000), other, true, String::new(), 10), Ok(()));
}

#[test]
fn completing_without_pending_effect_is_refused() {
    let mut gov = engine();
    let id = proposal_with_votes(&mut gov, ProposalType::UpdateMinStake(5000), &[(30, true, 300)]);
    assert_eq!(gov.complete_execution(id, true), Err(Error::Unauthorized));
    assert!(!gov.get_proposal(id).unwrap().executed);
}

#[test]
fn tallies_always_balance() {
    let mut gov = engine();
    let id = proposal_with_votes(&mut gov, ProposalType::SystemUpgrade, &[(30, true, 7), (31, false, 5), (32, true, 11)]);
    let p = gov.get_proposal(id).unwrap();
    assert_eq!(p.yes_votes + p.no_votes, p.total_voting_power);
    assert_eq!(p.total_voting_power, 23);
}

#[test]
fn huge_weights_saturate_without_breaking_the_balance() {
    let mut gov = engine();
    let id = proposal_with_votes(&mut gov, ProposalType::SystemUpgrade, &[(30, true, u64::MAX - 10), (31, false, 100)]);
    let p = gov.get_proposal(id).unwrap();
    assert_eq!(p.total_voting_power, u64::MAX);
    assert_eq!(p.yes_votes, u64::MAX - 10);
    assert_eq!(p.no_votes, 10);
}

#[test]
fn second_vote_is_refused() {
    let mut gov = engine();
    let id = proposal_with_votes(&mut gov, ProposalType::SystemUpgrade, &[(30, true, 10)]);
    assert!(gov.has_voted(id, account(30)));
    assert_eq!(gov.vote(at(account(30), 6, 2_000), id, false, String::new(), 10), Err(Error::AlreadyVoted));
    assert_eq!(gov.vote(at(account(30), 7, 2_000), id, true, String::new(), 99), Err(Error::AlreadyVoted));
    let p = gov.get_proposal(id).unwrap();
    assert_eq!((p.yes_votes, p.no_votes), (10, 0));
}

#[test]
fn execute_before_deadline_is_not_expired() {
    let mut gov = engine();
    let mut system = FakeSystem::new();
    let id = proposal_with_votes(&mut gov, ProposalType::UpdateMinStake(5000), &[(30, true, 300)]);
    let before = gov.get_proposal(id).unwrap();
    assert_eq!(gov.execute_proposal(at(PROPOSER, 10, 90_000), id, 1000, &mut system), Err(Error::ProposalNotExpired));
    assert_eq!(gov.execute_proposal(at(PROPOSER, 11, 90_000), id, 1000, &mut system), Err(Error::ProposalNotExpired));
    assert_eq!(gov.get_proposal(id).unwrap(), before);
    assert_eq!(system.min_stake, 1000);
}

#[test]
fn quorum_shortfall_rejects_without_effect() {
    let mut gov = engine();
    let mut system = FakeSystem::new();
    // 249 of 1000 is under the 25% quorum.
    let id = proposal_with_votes(&mut gov, ProposalType::UpdateMinStake(5000), &[(30, true, 249)]);
    let r = gov.execute_proposal(at(PROPOSER, 12, 0), id, 1000, &mut system);
    assert_eq!(r, Ok(ProposalExecuted { proposal_id: id, successful: false }));
    let p = gov.get_proposal(id).unwrap();
    assert!(p.executed && !p.active);
    assert_eq!(system.min_stake, 1000);
}

#[test]
fn queue_twice_keeps_first_time() {
    let mut gov = engine();
    let id = proposal_with_votes(&mut gov, ProposalType::SystemUpgrade, &[(30, true, 300)]);
    let first = gov.queue_proposal(at(PROPOSER, 12, 10_000), id).unwrap();
    let second = gov.queue_proposal(at(PROPOSER, 15, 50_000), id).unwrap();
    assert_eq!(first, second);
    assert_eq!(second.queued_at, 10_000);
    assert_eq!(gov.get_queued_at(id), Some(10_000));
    assert!(!gov.is_proposal_mature(id, 69_999));
    assert!(gov.is_proposal_mature(id, 70_000));
}

#[test]
fn queue_checks_window_and_existence() {
    let mut gov = engine();
    let id = proposal_with_votes(&mut gov, ProposalType::SystemUpgrade, &[(30, true, 300)]);
    assert_eq!(gov.queue_proposal(at(PROPOSER, 11, 10_000), id), Err(Error::ProposalNotExpired));
    assert_eq!(gov.queue_proposal(at(PROPOSER, 12, 10_000), 99), Err(Error::ProposalNotFound));
    assert_eq!(gov.get_queued_at(id), None);
    assert!(!gov.is_proposal_mature(id, u64::MAX));
}

#[test]
fn execute_requires_queue() {
    let mut gov = engine();
    let mut system = FakeSystem::new();
    let id = proposal_with_votes(&mut gov, ProposalType::SystemUpgrade, &[(30, true, 300)]);
    assert_eq!(gov.execute_proposal(at(PROPOSER, 12, 70_000), id, 1000, &mut system), Err(Error::NotQueued));
    // A queue time of 0 means "not queued", so a queue at timestamp 0 is refused.
    assert_eq!(gov.queue_proposal(at(PROPOSER, 12, 0), id), Err(Error::InvalidParameter));
    assert_eq!(gov.get_queued_at(id), None);
    assert_eq!(gov.execute_proposal(at(PROPOSER, 12, 70_000), id, 1000, &mut system), Err(Error::NotQueued));
    gov.queue_proposal(at(PROPOSER, 12, 1), id).unwrap();
    assert_eq!(gov.get_queued_at(id), Some(1));
    assert_eq!(
        gov.execute_proposal(at(PROPOSER, 12, 60_001), id, 1000, &mut system),
        Ok(ProposalExecuted { proposal_id: id, successful: true })
    );
}

#[test]
fn zero_supply_is_invalid_quorum() {
    let mut gov = engine();
    let mut system = FakeSystem::new();
    let id = proposal_with_votes(&mut gov, ProposalType::SystemUpgrade, &[(30, true, 300)]);
    assert_eq!(gov.execute_proposal(at(PROPOSER, 12, 0), id, 0, &mut system), Err(Error::InvalidQuorum));
    assert!(!gov.get_proposal(id).unwrap().executed);
}

#[test]
fn create_checks_power_description_and_payload() {
    let mut gov = engine();
    let ctx = at(PROPOSER, 1, 0);
    assert_eq!(
        gov.create_proposal(ctx, ProposalType::SystemUpgrade, "x".to_string(), 9),
        Err(Error::InsufficientVotingPower)
    );
    assert_eq!(gov.create_proposal(ctx, ProposalType::SystemUpgrade, String::new(), 10), Err(Error::InvalidParameter));
    assert_eq!(
        gov.create_proposal(ctx, ProposalType::SystemUpgrade, "d".repeat(513), 10),
        Err(Error::InvalidParameter)
    );
    assert_eq!(gov.create_proposal(ctx, ProposalType::UpdateMinStake(0), "x".to_string(), 10), Err(Error::InvalidParameter));
    assert_eq!(
        gov.create_proposal(ctx, ProposalType::UpdateReputationThreshold(101), "x".to_string(), 10),
        Err(Error::InvalidParameter)
    );
    assert_eq!(
        gov.create_proposal(ctx, ProposalType::TreasurySpend(RECIPIENT, 0), "x".to_string(), 10),
        Err(Error::InvalidParameter)
    );
    assert_eq!(gov.create_proposal(ctx, ProposalType::SystemUpgrade, "d".repeat(512), 10), Ok(1));
    assert_eq!(gov.create_proposal(ctx, ProposalType::UpdateReputationThreshold(100), "x".to_string(), 10), Ok(2));
    assert_eq!(gov.next_proposal_id(), 3);
    let p = gov.get_proposal(1).unwrap();
    assert_eq!(p.proposer, PROPOSER);
    assert_eq!(p.voting_end, 11);
    assert!(p.active && !p.executed);
    assert_eq!(gov.get_proposal(3), None);
}

#[test]
fn vote_errors() {
    let mut gov = engine();
    let id = proposal_with_votes(&mut gov, ProposalType::SystemUpgrade, &[]);
    assert_eq!(gov.vote(at(account(30), 5, 0), 42, true, String::new(), 10), Err(Error::ProposalNotFound));
    assert_eq!(gov.vote(at(account(30), 12, 0), id, true, String::new(), 10), Err(Error::ProposalExpired));
    assert_eq!(gov.vote(at(account(30), 11, 0), id, true, String::new(), 0), Err(Error::InsufficientVotingPower));
    assert_eq!(gov.vote(at(account(30), 11, 0), id, true, String::new(), 10), Ok(()));
}

#[test]
fn pause_and_guardians() {
    let mut gov = engine();
    let guardian = account(50);
    assert!(gov.is_guardian(OWNER));
    assert_eq!(gov.emergency_pause(guardian), Err(Error::Unauthorized));
    assert_eq!(gov.add_guardian(guardian, guardian), Err(Error::Unauthorized));
    assert_eq!(gov.add_guardian(OWNER, guardian), Ok(()));
    assert!(gov.is_guardian(guardian));
    assert_eq!(gov.emergency_pause(guardian), Ok(()));
    assert!(gov.is_paused());
    assert_eq!(
        gov.create_proposal(at(PROPOSER, 1, 0), ProposalType::SystemUpgrade, "x".to_string(), 100),
        Err(Error::ContractPaused)
    );
    assert_eq!(gov.emergency_unpause(guardian), Err(Error::Unauthorized));
    assert_eq!(gov.emergency_unpause(OWNER), Ok(()));
    assert!(!gov.is_paused());
    assert_eq!(gov.remove_guardian(OWNER, OWNER), Err(Error::InvalidParameter));
    assert_eq!(gov.remove_guardian(OWNER, guardian), Ok(()));
    assert!(!gov.is_guardian(guardian));
    assert!(gov.is_guardian(OWNER));
    assert_eq!(gov.emergency_pause(guardian), Err(Error::Unauthorized));
}

#[test]
fn owner_sets_parameters() {
    let mut gov = engine();
    assert_eq!(gov.get_governance_params(), (10, 10, 25));
    assert_eq!(gov.set_timelock_seconds(PROPOSER, 5), Err(Error::Unauthorized));
    let r = gov.set_timelock_seconds(OWNER, 120).unwrap();
    assert_eq!((r.old_seconds, r.new_seconds), (60, 120));
    let params = GovernanceParams {
        min_voting_power: 5,
        voting_duration_blocks: 20,
        quorum_percentage: 50,
        timelock_seconds: 30,
        max_execution_attempts: 1,
    };
    assert_eq!(gov.set_governance_params(PROPOSER, params), Err(Error::Unauthorized));
    assert_eq!(gov.set_governance_params(OWNER, params), Ok(()));
    assert_eq!(gov.governance_params(), params);
    assert_eq!(gov.owner(), OWNER);
}

#[test]
fn informational_kinds_always_succeed() {
    let mut gov = engine();
    let mut system = FakeSystem::new();
    system.fail_transfers = true;
    let id = proposal_with_votes(&mut gov, ProposalType::Other("note".to_string()), &[(30, true, 300)]);
    gov.queue_proposal(at(PROPOSER, 12, 1_000), id).unwrap();
    assert_eq!(gov.begin_execution(at(PROPOSER, 12, 61_000), id, 1000), Ok(ExecutionStep::Executed));
    assert!(gov.get_proposal(id).unwrap().executed);
    assert!(!gov.is_entered());
}

#[test]
fn minter_role_effect() {
    let mut gov = engine();
    let mut system = FakeSystem::new();
    let id = proposal_with_votes(&mut gov, ProposalType::SetTokenMinter(account(60), true), &[(30, true, 300)]);
    gov.queue_proposal(at(PROPOSER, 12, 1_000), id).unwrap();
    gov.execute_proposal(at(PROPOSER, 12, 61_000), id, 1000, &mut system).unwrap();
    assert_eq!(system.minters, vec![account(60)]);
}

#[test]
fn rate_and_threshold_effects_reach_their_targets() {
    let mut gov = engine();
    let mut system = FakeSystem::new();
    let rate = proposal_with_votes(&mut gov, ProposalType::UpdateCompensationRate(250), &[(30, true, 300)]);
    let threshold = gov
        .create_proposal(at(PROPOSER, 1, 1_000), ProposalType::UpdateReputationThreshold(75), "t".to_string(), 100)
        .unwrap();
    gov.vote(at(account(30), 5, 2_000), threshold, true, String::new(), 300).unwrap();
    gov.queue_proposal(at(PROPOSER, 12, 1_000), rate).unwrap();
    gov.queue_proposal(at(PROPOSER, 12, 1_000), threshold).unwrap();
    gov.execute_proposal(at(PROPOSER, 12, 61_000), rate, 1000, &mut system).unwrap();
    gov.execute_proposal(at(PROPOSER, 12, 61_000), threshold, 1000, &mut system).unwrap();
    assert_eq!(system.compensation_rate, 250);
    assert_eq!(system.reputation_threshold, 75);
    assert_eq!(system.min_stake, 1000);
    assert!(system.transfers.is_empty());
}

#[test]
fn ownership_moves_and_old_owner_stays_guardian() {
    let mut gov = engine();
    let next = account(70);
    assert_eq!(gov.transfer_ownership(next, next), Err(Error::Unauthorized));
    assert_eq!(gov.transfer_ownership(OWNER, next), Ok(()));
    assert_eq!(gov.owner(), next);
    assert!(gov.is_guardian(OWNER));
    assert!(gov.is_guardian(next));
    assert_eq!(gov.set_timelock_seconds(OWNER, 5), Err(Error::Unauthorized));
    assert!(gov.set_timelock_seconds(next, 5).is_ok());
    assert_eq!(gov.emergency_pause(OWNER), Ok(()));
    assert_eq!(gov.emergency_unpause(OWNER), Err(Error::Unauthorized));
    assert_eq!(gov.emergency_unpause(next), Ok(()));
}

/// A token ledger with fixed balances.
struct FakeToken {
    holder: [u8; 32],
    balance: u128,
    supply: u128,
}

impl TokenInterface for FakeToken {
    // Spec functions: only the verifier reads them, no code calls them.
    fn balance_spec(&self, _owner: [u8; 32]) -> u128 {
        unreachable!()
    }

    fn supply_spec(&self) -> u128 {
        unreachable!()
    }

    fn transfer(&mut self, _to: [u8; 32], _value: u128) -> bool {
        false
    }

    fn balance_of(&self, owner: [u8; 32]) -> u128 {
        if owner == self.holder { self.balance } else { 0 }
    }

    fn mint(&mut self, _to: [u8; 32], _value: u128) -> bool {
        false
    }

    fn total_supply(&self) -> u128 {
        self.supply
    }

    fn approve(&mut self, _spender: [u8; 32], _value: u128) -> bool {
        false
    }

    fn allowance(&self, _owner: [u8; 32], _spender: [u8; 32]) -> u128 {
        0
    }

    fn transfer_from(&mut self, _from: [u8; 32], _to: [u8; 32], _value: u128) -> bool {
        false
    }
}

#[test]
fn voting_power_comes_from_token_balances() {
    let token = FakeToken { holder: PROPOSER, balance: 100, supply: u128::MAX };
    assert_eq!(get_voting_power(&token, PROPOSER), 100);
    assert_eq!(get_voting_power(&token, account(3)), 0);
    assert_eq!(get_total_voting_power(&token), u64::MAX);
}
