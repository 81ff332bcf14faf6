//! The contract record.

use vstd::prelude::*;
use crate::model::ContractView;

verus! {

/// An account that receives points from founders, turns them into rewards,
/// and holds the rewards until a founder claims them.
#[derive(Debug)]
pub struct ContractInfo {
    /// A display name.
    pub name: String,
    /// The contract's address, which is its key in the registry.
    pub contract_address: String,
    /// Hash of the contract's interface description.
    pub abi_hash: String,
    /// Points that can still be converted.
    pub current_points: u64,
    /// Rewards generated and not yet claimed.
    pub pending_rewards: u64,
    /// Rewards claimed so far.
    pub claimed_rewards: u64,
    /// A classification tag.
    pub category: String,
    /// A flag shown with the record; no ledger operation reads it.
    pub is_verified: bool,
}

impl View for ContractInfo {
    type V = ContractView;

    open spec fn view(&self) -> ContractView {
        ContractView {
            name: self.name@,
            contract_address: self.contract_address@,
            abi_hash: self.abi_hash@,
            current_points: self.current_points as int,
            pending_rewards: self.pending_rewards as int,
            claimed_rewards: self.claimed_rewards as int,
            category: self.category@,
            is_verified: self.is_verified,
        }
    }
}

impl Clone for ContractInfo {
    /// A copy that stands for the same record.
    fn clone(&self) -> (copy: ContractInfo)
        ensures
            copy@ == self@,
    {
        ContractInfo {
            name: self.name.clone(),
            contract_address: self.contract_address.clone(),
            abi_hash: self.abi_hash.clone(),
            current_points: self.current_points,
            pending_rewards: self.pending_rewards,
            claimed_rewards: self.claimed_rewards,
            category: self.category.clone(),
            is_verified: self.is_verified,
        }
    }
}

} // verus!
