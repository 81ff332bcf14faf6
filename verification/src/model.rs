//! The ledger as mathematics: records with integer counters, registries as
//! maps, and each operation as a function from one state to the next.
//!
//! The executable registries are specified against these definitions.

use vstd::prelude::*;

verus! {

/// Points that one reward unit costs.
pub const POINTS_PER_REWARD: u64 = 100;

/// The largest value that a counter of the ledger can hold.
pub const COUNTER_MAX: u64 = u64::MAX;

/// What a founder record stands for.
pub struct FounderView {
    pub founder_name: Seq<char>,
    pub allocated_points: int,
    pub distributed_points: int,
    pub earned_rewards: int,
    pub is_active: bool,
    pub api_key: Option<Seq<char>>,
    pub contracts: Seq<Seq<char>>,
}

/// What a contract record stands for.
pub struct ContractView {
    pub name: Seq<char>,
    pub contract_address: Seq<char>,
    pub abi_hash: Seq<char>,
    pub current_points: int,
    pub pending_rewards: int,
    pub claimed_rewards: int,
    pub category: Seq<char>,
    pub is_verified: bool,
}

impl FounderView {
    /// No counter is negative or above `COUNTER_MAX`, and no more was
    /// distributed than allocated.
    pub open spec fn wf(self) -> bool {
        &&& 0 <= self.distributed_points <= self.allocated_points <= COUNTER_MAX
        &&& 0 <= self.earned_rewards <= COUNTER_MAX
    }

    /// Points allocated and not yet distributed.
    pub open spec fn available_points(self) -> int {
        self.allocated_points - self.distributed_points
    }

    /// A founder as registration leaves it: nothing distributed, nothing earned.
    pub open spec fn fresh(
        founder_name: Seq<char>,
        allocated_points: int,
        api_key: Option<Seq<char>>,
        is_active: bool,
    ) -> FounderView {
        FounderView {
            founder_name,
            allocated_points,
            distributed_points: 0,
            earned_rewards: 0,
            is_active,
            api_key,
            contracts: Seq::empty(),
        }
    }
}

impl ContractView {
    /// No counter is negative or above `COUNTER_MAX`.
    pub open spec fn wf(self) -> bool {
        &&& 0 <= self.current_points <= COUNTER_MAX
        &&& 0 <= self.pending_rewards <= COUNTER_MAX
        &&& 0 <= self.claimed_rewards <= COUNTER_MAX
    }

    /// A contract as registration leaves it: all counters zero.
    pub open spec fn fresh(
        name: Seq<char>,
        contract_address: Seq<char>,
        abi_hash: Seq<char>,
        category: Seq<char>,
        is_verified: bool,
    ) -> ContractView {
        ContractView {
            name,
            contract_address,
            abi_hash,
            current_points: 0,
            pending_rewards: 0,
            claimed_rewards: 0,
            category,
            is_verified,
        }
    }
}

/// Rewards that converting `points` yields: one per full hundred.
pub open spec fn rewards_for(points: int) -> int {
    points / (POINTS_PER_REWARD as int)
}

} // verus!
