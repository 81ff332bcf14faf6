//! The ledger's operations.
//!
//! Each operation takes the registries it touches and nothing else: what it
//! is not handed it cannot change. An operation that touches both takes the
//! founders first and the contracts second. Every test comes before the
//! first change, so a rejected request leaves the registries as they were.
//! Counters are 64-bit: a request that would take one past `u64::MAX` is
//! rejected with `CounterOverflow`.

use vstd::prelude::*;
use crate::book::{claim, distribute, FounderBook};
use crate::contract::ContractInfo;
use crate::error::LedgerError;
use crate::founder::{copy_option_string, option_string_view, Founder};
use crate::model::{ContractView, FounderView, POINTS_PER_REWARD};
use crate::registry::{ContractRegistry, FounderRegistry};
use crate::request::{
    AllocatePointsRequest, ClaimRewardsRequest, ContractRegistrationRequest, ConvertPointsRequest,
    DistributePointsRequest, FounderCreationRequest,
};

verus! {

/// Registers the founder that `req` describes, with nothing distributed and
/// nothing earned. A name that is already registered is rejected with
/// `AlreadyExists`, and the registry stays as it was.
pub fn create_founder(founders: &mut FounderRegistry, req: &FounderCreationRequest) -> (result:
    Result<(), LedgerError>)
    requires
        old(founders).wf(),
    ensures
        final(founders).wf(),
        match old(founders)@.create_founder(
            req.founder_name@,
            req.allocated_points as int,
            option_string_view(req.api_key),
            req.is_active,
        ) {
            Ok(next) => result == Ok::<(), LedgerError>(()) && final(founders)@ == next,
            Err(e) => result == Err::<(), LedgerError>(e) && final(founders)@ == old(founders)@,
        },
{
    if founders.find(req.founder_name.as_str()).is_some() {
        return Err(LedgerError::AlreadyExists);
    }
    let new_founder = Founder {
        contracts: Vec::new(),
        allocated_points: req.allocated_points,
        distributed_points: 0,
        earned_rewards: 0,
        api_key: copy_option_string(&req.api_key),
        is_active: req.is_active,
        founder_name: req.founder_name.clone(),
    };
    assert(new_founder@ == FounderView::fresh(
        req.founder_name@,
        req.allocated_points as int,
        option_string_view(req.api_key),
        req.is_active,
    )) by {
        assert(new_founder@.contracts =~= Seq::empty());
    }
    founders.enroll(new_founder);
    Ok(())
}

/// Moves `req.points` from the founder's unspent allocation to the
/// contract's balance, both or neither.
///
/// The founder is looked up first (`FounderNotFound`, then
/// `InactiveFounder`), the balance next (`InsufficientBalance` when more is
/// asked for than is allocated and not yet distributed), and the contract
/// next (`ContractNotFound`): a request that fails on the balance is
/// rejected for the balance whether or not the contract exists. Last, a
/// contract whose balance cannot hold the points is rejected with
/// `CounterOverflow`.
pub fn distribute_points_to_contract(
    founders: &mut FounderRegistry,
    contracts: &mut ContractRegistry,
    req: &DistributePointsRequest,
) -> (result: Result<(), LedgerError>)
    requires
        old(founders).wf(),
        old(contracts).wf(),
    ensures
        final(founders).wf(),
        final(contracts).wf(),
        match distribute(
            old(founders)@,
            old(contracts)@,
            req.founder_address@,
            req.contract_address@,
            req.points as int,
        ) {
            Ok((next_founders, next_contracts)) => {
                &&& result == Ok::<(), LedgerError>(())
                &&& final(founders)@ == next_founders
                &&& final(contracts)@ == next_contracts
            },
            Err(e) => {
                &&& result == Err::<(), LedgerError>(e)
                &&& final(founders)@ == old(founders)@
                &&& final(contracts)@ == old(contracts)@
            },
        },
{
    let founder = match founders.find(req.founder_address.as_str()) {
        Some(founder) => founder,
        None => return Err(LedgerError::FounderNotFound),
    };
    if !founder.is_active {
        return Err(LedgerError::InactiveFounder);
    }
    let available_points = founder.allocated_points - founder.distributed_points;
    if req.points > available_points {
        return Err(LedgerError::InsufficientBalance);
    }
    let contract = match contracts.find(req.contract_address.as_str()) {
        Some(contract) => contract,
        None => return Err(LedgerError::ContractNotFound),
    };
    let current_points = match contract.current_points.checked_add(req.points) {
        Some(sum) => sum,
        None => return Err(LedgerError::CounterOverflow),
    };
    let mut founder = founder.clone();
    let mut contract = contract.clone();
    founder.distributed_points = founder.distributed_points + req.points;
    contract.current_points = current_points;
    founders.replace(founder);
    contracts.replace(contract);
    Ok(())
}

/// Hands the contract's pending rewards to the founder: the founder's
/// earned rewards and the contract's claimed rewards both grow by the
/// pending amount, and the pending amount becomes zero, all or nothing.
///
/// The founder is looked up first (`FounderNotFound`, then
/// `InactiveFounder`), the contract next (`ContractNotFound`), then the
/// pending amount (`NothingToClaim` when it is zero). Last, a claim that the
/// founder's earned rewards or the contract's claimed rewards cannot hold is
/// rejected with `CounterOverflow`.
pub fn claim_rewards(
    founders: &mut FounderRegistry,
    contracts: &mut ContractRegistry,
    req: &ClaimRewardsRequest,
) -> (result: Result<(), LedgerError>)
    requires
        old(founders).wf(),
        old(contracts).wf(),
    ensures
        final(founders).wf(),
        final(contracts).wf(),
        match claim(old(founders)@, old(contracts)@, req.founder_address@, req.contract_address@) {
            Ok((next_founders, next_contracts)) => {
                &&& result == Ok::<(), LedgerError>(())
                &&& final(founders)@ == next_founders
                &&& final(contracts)@ == next_contracts
            },
            Err(e) => {
                &&& result == Err::<(), LedgerError>(e)
                &&& final(founders)@ == old(founders)@
                &&& final(contracts)@ == old(contracts)@
            },
        },
{
    let founder = match founders.find(req.founder_address.as_str()) {
        Some(founder) => founder,
        None => return Err(LedgerError::FounderNotFound),
    };
    if !founder.is_active {
        return Err(LedgerError::InactiveFounder);
    }
    let contract = match contracts.find(req.contract_address.as_str()) {
        Some(contract) => contract,
        None => return Err(LedgerError::ContractNotFound),
    };
    if contract.pending_rewards == 0 {
        return Err(LedgerError::NothingToClaim);
    }
    let earned_rewards = match founder.earned_rewards.checked_add(contract.pending_rewards) {
        Some(sum) => sum,
        None => return Err(LedgerError::CounterOverflow),
    };
    let claimed_rewards = match contract.claimed_rewards.checked_add(contract.pending_rewards) {
        Some(sum) => sum,
        None => return Err(LedgerError::CounterOverflow),
    };
    let mut founder = founder.clone();
    let mut contract = contract.clone();
    founder.earned_rewards = earned_rewards;
    contract.claimed_rewards = claimed_rewards;
    contract.pending_rewards = 0;
    founders.replace(founder);
    contracts.replace(contract);
    Ok(())
}

/// Turns `req.points_to_convert` of the contract's balance into rewards,
/// one for every full hundred points. The whole amount leaves the balance:
/// the remainder below a hundred is not kept.
///
/// A contract that is not registered is rejected with `ContractNotFound`, a
/// request for more than the balance holds with `InsufficientBalance`, and
/// one whose rewards the pending counter cannot hold with `CounterOverflow`.
pub fn convert_points_to_rewards(contracts: &mut ContractRegistry, req: &ConvertPointsRequest)
    -> (result: Result<(), LedgerError>)
    requires
        old(contracts).wf(),
    ensures
        final(contracts).wf(),
        match old(contracts)@.convert(req.contract_address@, req.points_to_convert as int) {
            Ok(next) => result == Ok::<(), LedgerError>(()) && final(contracts)@ == next,
            Err(e) => result == Err::<(), LedgerError>(e) && final(contracts)@ == old(
                contracts,
            )@,
        },
{
    let contract = match contracts.find(req.contract_address.as_str()) {
        Some(contract) => contract,
        None => return Err(LedgerError::ContractNotFound),
    };
    if req.points_to_convert > contract.current_points {
        return Err(LedgerError::InsufficientBalance);
    }
    let rewards_generated = req.points_to_convert / POINTS_PER_REWARD;
    let pending_rewards = match contract.pending_rewards.checked_add(rewards_generated) {
        Some(sum) => sum,
        None => return Err(LedgerError::CounterOverflow),
    };
    let mut contract = contract.clone();
    contract.current_points = contract.current_points - req.points_to_convert;
    contract.pending_rewards = pending_rewards;
    contracts.replace(contract);
    Ok(())
}

/// Adds `req.points` to the allocation of an active founder.
///
/// A founder that is not registered is rejected with `FounderNotFound`, one
/// that is not active with `InactiveFounder`, and an allocation that the
/// counter cannot hold with `CounterOverflow`.
pub fn allocate_points_to_founder(founders: &mut FounderRegistry, req: &AllocatePointsRequest)
    -> (result: Result<(), LedgerError>)
    requires
        old(founders).wf(),
    ensures
        final(founders).wf(),
        match old(founders)@.allocate(req.founder_address@, req.points as int) {
            Ok(next) => result == Ok::<(), LedgerError>(()) && final(founders)@ == next,
            Err(e) => result == Err::<(), LedgerError>(e) && final(founders)@ == old(founders)@,
        },
{
    let founder = match founders.find(req.founder_address.as_str()) {
        Some(founder) => founder,
        None => return Err(LedgerError::FounderNotFound),
    };
    if !founder.is_active {
        return Err(LedgerError::InactiveFounder);
    }
    let allocated_points = match founder.allocated_points.checked_add(req.points) {
        Some(sum) => sum,
        None => return Err(LedgerError::CounterOverflow),
    };
    let mut founder = founder.clone();
    founder.allocated_points = allocated_points;
    founders.replace(founder);
    Ok(())
}

/// A copy of the record of the founder named `founder_name`, or
/// `FounderNotFound`. The registry is only read.
pub fn get_founder(founders: &FounderRegistry, founder_name: &str) -> (result: Result<
    Founder,
    LedgerError,
>)
    ensures
        match founders@.get_founder(founder_name@) {
            Ok(record) => result matches Ok(founder) && founder@ == record,
            Err(e) => result matches Err(err) && err == e,
        },
{
    match founders.find(founder_name) {
        Some(founder) => Ok(founder.clone()),
        None => Err(LedgerError::FounderNotFound),
    }
}

/// Seeds the founder that every ledger starts with: `founder1`, active, with
/// 1000 points and a placeholder key. Where a founder of that name is
/// registered already, nothing changes: its record and both indexes stay.
pub fn add_default_founder(founders: &mut FounderRegistry)
    requires
        old(founders).wf(),
    ensures
        final(founders).wf(),
        final(founders)@ == old(founders)@.seed_default_founder(),
{
    if founders.find("founder1").is_some() {
        return ;
    }
    let default_founder = Founder {
        contracts: Vec::new(),
        allocated_points: 1000,
        distributed_points: 0,
        earned_rewards: 0,
        api_key: Some("default_api_key_123".to_owned()),
        is_active: true,
        founder_name: "founder1".to_owned(),
    };
    assert(default_founder@ == FounderBook::default_founder()) by {
        assert(default_founder@.contracts =~= Seq::empty());
    }
    founders.enroll(default_founder);
}

/// Registers the contract that `req` describes, with all counters at zero.
/// An address that is already registered is rejected with `AlreadyExists`,
/// and the registry stays as it was.
pub fn register_contract(contracts: &mut ContractRegistry, req: &ContractRegistrationRequest)
    -> (result: Result<(), LedgerError>)
    requires
        old(contracts).wf(),
    ensures
        final(contracts).wf(),
        match old(contracts)@.register(
            ContractView::fresh(
                req.name@,
                req.contract_address@,
                req.abi_hash@,
                req.category@,
                req.is_verified,
            ),
        ) {
            Ok(next) => result == Ok::<(), LedgerError>(()) && final(contracts)@ == next,
            Err(e) => result == Err::<(), LedgerError>(e) && final(contracts)@ == old(
                contracts,
            )@,
        },
{
    if contracts.find(req.contract_address.as_str()).is_some() {
        return Err(LedgerError::AlreadyExists);
    }
    let contract = ContractInfo {
        name: req.name.clone(),
        contract_address: req.contract_address.clone(),
        abi_hash: req.abi_hash.clone(),
        current_points: 0,
        pending_rewards: 0,
        claimed_rewards: 0,
        category: req.category.clone(),
        is_verified: req.is_verified,
    };
    contracts.replace(contract);
    Ok(())
}

/// A copy of the record of the contract at `contract_address`, or
/// `ContractNotFound`. The registry is only read.
pub fn get_contract(contracts: &ContractRegistry, contract_address: &str) -> (result: Result<
    ContractInfo,
    LedgerError,
>)
    ensures
        match contracts@.get_contract(contract_address@) {
            Ok(record) => result matches Ok(contract) && contract@ == record,
            Err(e) => result matches Err(err) && err == e,
        },
{
    match contracts.find(contract_address) {
        Some(contract) => Ok(contract.clone()),
        None => Err(LedgerError::ContractNotFound),
    }
}

} // verus!
