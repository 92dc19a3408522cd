use vstd::prelude::*;
use crate::types::{Balance, ProposalType};

verus! {

/// A token ledger; governance reads voting power from its balances.
/// `balance_spec` and `supply_spec` are what the ledger holds: `balance_of`
/// and `total_supply` report them.
pub trait TokenInterface {
    spec fn balance_spec(&self, owner: [u8; 32]) -> u128;

    spec fn supply_spec(&self) -> u128;

    fn transfer(&mut self, to: [u8; 32], value: u128) -> bool;

    fn balance_of(&self, owner: [u8; 32]) -> (r: u128)
        ensures
            r == self.balance_spec(owner),
    ;

    fn mint(&mut self, to: [u8; 32], value: u128) -> bool;

    fn total_supply(&self) -> (r: u128)
        ensures
            r == self.supply_spec(),
    ;

    fn approve(&mut self, spender: [u8; 32], value: u128) -> bool;

    fn allowance(&self, owner: [u8; 32], spender: [u8; 32]) -> u128;

    fn transfer_from(&mut self, from: [u8; 32], to: [u8; 32], value: u128) -> bool;
}

/// Device registration and management.
pub trait RegistryInterface {
    fn is_device_registered(&self, account: [u8; 32]) -> bool;

    fn get_device_reputation(&self, account: [u8; 32]) -> Option<u32>;

    fn update_device_performance(&mut self, account: [u8; 32], energy_contributed: u64, success: bool);
}

/// Registry figures that governance may change.
pub trait DeviceRegistryInterface {
    fn get_device_count(&self) -> u64;

    fn get_min_stake(&self) -> u128;
}

/// A change that a passed proposal asks of another subsystem.
#[derive(Clone, Copy, Debug, PartialEq, Eq)]
pub enum EffectRequest {
    /// The registry's minimum stake.
    MinStake(Balance),
    /// The grid service's default compensation rate.
    CompensationRate(Balance),
    /// The registry's reputation threshold.
    ReputationThreshold(u32),
    /// A payment out of the treasury.
    Transfer([u8; 32], Balance),
    /// The token's minter role for an account.
    TokenMinter([u8; 32], bool),
    /// An account's authorization at the registry.
    RegistryAuthorizedCaller([u8; 32], bool),
    /// An account's authorization at the grid service.
    GridAuthorizedCaller([u8; 32], bool),
}

/// The dispatch table: the request that a proposal of kind `kind` makes, if any.
pub open spec fn request_of(kind: ProposalType) -> Option<EffectRequest> {
    match kind {
        ProposalType::UpdateMinStake(v) => Some(EffectRequest::MinStake(v)),
        ProposalType::UpdateCompensationRate(v) => Some(EffectRequest::CompensationRate(v)),
        ProposalType::UpdateReputationThreshold(t) => Some(EffectRequest::ReputationThreshold(t)),
        ProposalType::TreasurySpend(to, amount) => Some(EffectRequest::Transfer(to, amount)),
        ProposalType::SetTokenMinter(a, enabled) => Some(EffectRequest::TokenMinter(a, enabled)),
        ProposalType::SetRegistryAuthorizedCaller(a, enabled) => Some(EffectRequest::RegistryAuthorizedCaller(a, enabled)),
        ProposalType::SetGridAuthorizedCaller(a, enabled) => Some(EffectRequest::GridAuthorizedCaller(a, enabled)),
        ProposalType::SystemUpgrade => None,
        ProposalType::Other(_) => None,
    }
}

/// A log of requests, in the order they were made.
pub type RequestLog = Seq<EffectRequest>;

/// The subsystems that a passed proposal acts on. `requests` is the log of
/// changes asked of them so far; each call adds its own request to it and
/// reports whether the subsystem accepted the change.
pub trait ProposalEffects {
    spec fn requests(&self) -> RequestLog;

    fn update_min_stake(&mut self, value: Balance) -> (r: bool)
        ensures
            final(self).requests() == old(self).requests().push(EffectRequest::MinStake(value)),
    ;

    fn update_default_compensation_rate(&mut self, value: Balance) -> (r: bool)
        ensures
            final(self).requests() == old(self).requests().push(EffectRequest::CompensationRate(value)),
    ;

    fn update_reputation_threshold(&mut self, value: u32) -> (r: bool)
        ensures
            final(self).requests() == old(self).requests().push(EffectRequest::ReputationThreshold(value)),
    ;

    /// Pays `amount` out of the treasury.
    fn transfer(&mut self, to: [u8; 32], amount: Balance) -> (r: bool)
        ensures
            final(self).requests() == old(self).requests().push(EffectRequest::Transfer(to, amount)),
    ;

    fn set_token_minter(&mut self, account: [u8; 32], enabled: bool) -> (r: bool)
        ensures
            final(self).requests() == old(self).requests().push(EffectRequest::TokenMinter(account, enabled)),
    ;

    fn set_registry_authorized_caller(&mut self, account: [u8; 32], enabled: bool) -> (r: bool)
        ensures
            final(self).requests() == old(self).requests().push(EffectRequest::RegistryAuthorizedCaller(account, enabled)),
    ;

    fn set_grid_authorized_caller(&mut self, account: [u8; 32], enabled: bool) -> (r: bool)
        ensures
            final(self).requests() == old(self).requests().push(EffectRequest::GridAuthorizedCaller(account, enabled)),
    ;
}

/// A balance as voting power: governance counts weight in `u64` units.
pub open spec fn voting_power_of_balance(balance: u128) -> u64 {
    if balance > u64::MAX { u64::MAX } else { balance as u64 }
}

pub fn clamp_voting_power(balance: u128) -> (r: u64)
    ensures
        r == voting_power_of_balance(balance),
{
    if balance > u64::MAX as u128 {
        u64::MAX
    } else {
        balance as u64
    }
}

/// The voting power of `account`: its token balance, capped at `u64::MAX`.
pub fn get_voting_power<T: TokenInterface>(token: &T, account: [u8; 32]) -> (r: u64)
    ensures
        r == voting_power_of_balance(token.balance_spec(account)),
{
    let balance = token.balance_of(account);
    clamp_voting_power(balance)
}

/// The total voting power: the token's supply, capped at `u64::MAX`.
pub fn get_total_voting_power<T: TokenInterface>(token: &T) -> (r: u64)
    ensures
        r == voting_power_of_balance(token.supply_spec()),
{
    let supply = token.total_supply();
    clamp_voting_power(supply)
}

/// Carries out the effect of a proposal of kind `kind` and reports whether it took hold:
/// exactly one call, the one that makes the request `request_of(kind)`.
/// Kinds without an effect call nothing and always succeed.
pub fn dispatch_effect<E: ProposalEffects>(effects: &mut E, kind: &ProposalType) -> (r: bool)
    ensures
        request_of(*kind) matches Some(q) ==> final(effects).requests() == old(effects).requests().push(q),
        request_of(*kind) is None ==> r && *final(effects) == *old(effects),
{
    match kind {
        ProposalType::UpdateMinStake(v) => effects.update_min_stake(*v),
        ProposalType::UpdateCompensationRate(v) => effects.update_default_compensation_rate(*v),
        ProposalType::UpdateReputationThreshold(t) => effects.update_reputation_threshold(*t),
        ProposalType::TreasurySpend(to, amount) => effects.transfer(*to, *amount),
        ProposalType::SetTokenMinter(a, enabled) => effects.set_token_minter(*a, *enabled),
        ProposalType::SetRegistryAuthorizedCaller(a, enabled) => effects.set_registry_authorized_caller(*a, *enabled),
        ProposalType::SetGridAuthorizedCaller(a, enabled) => effects.set_grid_authorized_caller(*a, *enabled),
        ProposalType::SystemUpgrade => true,
        ProposalType::Other(_) => true,
    }
}

} // verus!
