//! The two registries as mathematical maps, and the ledger's operations as
//! functions on them. Each operation gives the next state, or the reason for
//! which the request is rejected; a rejected request has no next state.
//!
//! The counters are integers without a bound here, and every operation
//! rejects the request that would take one past `COUNTER_MAX`. That test
//! comes last: a request that fails for another reason fails for that reason.

use vstd::prelude::*;
use crate::error::LedgerError;
use crate::model::{rewards_for, ContractView, FounderView, COUNTER_MAX};

verus! {

/// The founder registry with its two indexes.
pub struct FounderBook {
    /// Founder records by founder name.
    pub founders: Map<Seq<char>, FounderView>,
    /// Founder name by API key.
    pub api_key_to_founder: Map<Seq<char>, Seq<char>>,
    /// Names of the founders that were registered as active.
    pub active_founders: Set<Seq<char>>,
}

/// The contract registry.
pub struct ContractBook {
    /// Contract records by contract address.
    pub contracts: Map<Seq<char>, ContractView>,
}

impl FounderBook {
    /// The registry with no founder in it.
    pub open spec fn empty() -> FounderBook {
        FounderBook {
            founders: Map::empty(),
            api_key_to_founder: Map::empty(),
            active_founders: Set::empty(),
        }
    }

    /// Every record is filed under its own name and is well formed, the
    /// active set holds exactly the names of the active founders, and the key
    /// index names registered founders only and knows every key in use.
    pub open spec fn wf(self) -> bool {
        &&& forall|name: Seq<char>| #[trigger]
            self.founders.contains_key(name) ==> {
                &&& self.founders[name].founder_name == name
                &&& self.founders[name].wf()
                &&& self.founders[name].is_active == self.active_founders.contains(name)
                &&& self.founders[name].api_key matches Some(key)
                    ==> self.api_key_to_founder.contains_key(key)
            }
        &&& forall|name: Seq<char>| #[trigger]
            self.active_founders.contains(name) ==> self.founders.contains_key(name)
        &&& forall|key: Seq<char>| #[trigger]
            self.api_key_to_founder.contains_key(key) ==> self.founders.contains_key(
                self.api_key_to_founder[key],
            )
    }

    /// The registry with `founder` filed under its name, its key (if it has
    /// one) pointing at it, and its name in the active set if it is active.
    pub open spec fn enroll(self, founder: FounderView) -> FounderBook {
        FounderBook {
            founders: self.founders.insert(founder.founder_name, founder),
            api_key_to_founder: match founder.api_key {
                Some(key) => self.api_key_to_founder.insert(key, founder.founder_name),
                None => self.api_key_to_founder,
            },
            active_founders: if founder.is_active {
                self.active_founders.insert(founder.founder_name)
            } else {
                self.active_founders
            },
        }
    }

    /// The registry with the record under `name` replaced; the indexes stay.
    pub open spec fn with_founder(self, name: Seq<char>, founder: FounderView) -> FounderBook {
        FounderBook { founders: self.founders.insert(name, founder), ..self }
    }

    /// The founder under `name`, if it may act: it must exist and be active.
    pub open spec fn acting_founder(self, name: Seq<char>) -> Result<FounderView, LedgerError> {
        if !self.founders.contains_key(name) {
            Err(LedgerError::FounderNotFound)
        } else if !self.founders[name].is_active {
            Err(LedgerError::InactiveFounder)
        } else {
            Ok(self.founders[name])
        }
    }

    /// Registers a new founder; a name already in use is rejected.
    pub open spec fn create_founder(
        self,
        name: Seq<char>,
        allocated_points: int,
        api_key: Option<Seq<char>>,
        is_active: bool,
    ) -> Result<FounderBook, LedgerError> {
        if self.founders.contains_key(name) {
            Err(LedgerError::AlreadyExists)
        } else {
            Ok(self.enroll(FounderView::fresh(name, allocated_points, api_key, is_active)))
        }
    }

    /// Adds `points` to the allocation of an active founder.
    pub open spec fn allocate(self, name: Seq<char>, points: int) -> Result<
        FounderBook,
        LedgerError,
    > {
        match self.acting_founder(name) {
            Err(e) => Err(e),
            Ok(founder) => if founder.allocated_points + points > COUNTER_MAX {
                Err(LedgerError::CounterOverflow)
            } else {
                Ok(
                    self.with_founder(
                        name,
                        FounderView {
                            allocated_points: founder.allocated_points + points,
                            ..founder
                        },
                    ),
                )
            },
        }
    }

    /// The registry with the default founder filed, unless a founder of that
    /// name is registered already: then the registry as it is.
    pub open spec fn seed_default_founder(self) -> FounderBook {
        if self.founders.contains_key(FounderBook::default_founder().founder_name) {
            self
        } else {
            self.enroll(FounderBook::default_founder())
        }
    }

    /// The founder that every ledger starts with.
    pub open spec fn default_founder() -> FounderView {
        FounderView::fresh("founder1"@, 1000, Some("default_api_key_123"@), true)
    }

    /// The record under `name`.
    pub open spec fn get_founder(self, name: Seq<char>) -> Result<FounderView, LedgerError> {
        if self.founders.contains_key(name) {
            Ok(self.founders[name])
        } else {
            Err(LedgerError::FounderNotFound)
        }
    }
}

impl ContractBook {
    /// The registry with no contract in it.
    pub open spec fn empty() -> ContractBook {
        ContractBook { contracts: Map::empty() }
    }

    /// Every record is filed under its own address and is well formed.
    pub open spec fn wf(self) -> bool {
        forall|address: Seq<char>| #[trigger]
            self.contracts.contains_key(address) ==> {
                &&& self.contracts[address].contract_address == address
                &&& self.contracts[address].wf()
            }
    }

    /// The registry with the record under `address` replaced.
    pub open spec fn with_contract(self, address: Seq<char>, contract: ContractView)
        -> ContractBook {
        ContractBook { contracts: self.contracts.insert(address, contract) }
    }

    /// Registers a new contract with zero counters; an address already in use
    /// is rejected.
    pub open spec fn register(self, contract: ContractView) -> Result<ContractBook, LedgerError> {
        if self.contracts.contains_key(contract.contract_address) {
            Err(LedgerError::AlreadyExists)
        } else {
            Ok(self.with_contract(contract.contract_address, contract))
        }
    }

    /// Turns `points` of a contract's balance into rewards. The whole amount
    /// leaves the balance; what does not fill a reward unit is lost.
    pub open spec fn convert(self, address: Seq<char>, points: int) -> Result<
        ContractBook,
        LedgerError,
    > {
        if !self.contracts.contains_key(address) {
            Err(LedgerError::ContractNotFound)
        } else if points > self.contracts[address].current_points {
            Err(LedgerError::InsufficientBalance)
        } else if self.contracts[address].pending_rewards + rewards_for(points) > COUNTER_MAX {
            Err(LedgerError::CounterOverflow)
        } else {
            let contract = self.contracts[address];
            Ok(
                self.with_contract(
                    address,
                    ContractView {
                        current_points: contract.current_points - points,
                        pending_rewards: contract.pending_rewards + rewards_for(points),
                        ..contract
                    },
                ),
            )
        }
    }

    /// The record under `address`.
    pub open spec fn get_contract(self, address: Seq<char>) -> Result<ContractView, LedgerError> {
        if self.contracts.contains_key(address) {
            Ok(self.contracts[address])
        } else {
            Err(LedgerError::ContractNotFound)
        }
    }
}

/// Moves `points` from a founder's unspent allocation to a contract's
/// balance. The founder is looked at first, then the balance, then the
/// contract, and last whether the contract's balance can hold the points.
pub open spec fn distribute(
    founders: FounderBook,
    contracts: ContractBook,
    founder_name: Seq<char>,
    contract_address: Seq<char>,
    points: int,
) -> Result<(FounderBook, ContractBook), LedgerError> {
    match founders.acting_founder(founder_name) {
        Err(e) => Err(e),
        Ok(founder) => if points > founder.available_points() {
            Err(LedgerError::InsufficientBalance)
        } else if !contracts.contracts.contains_key(contract_address) {
            Err(LedgerError::ContractNotFound)
        } else if contracts.contracts[contract_address].current_points + points > COUNTER_MAX {
            Err(LedgerError::CounterOverflow)
        } else {
            let contract = contracts.contracts[contract_address];
            Ok(
                (
                    founders.with_founder(
                        founder_name,
                        FounderView {
                            distributed_points: founder.distributed_points + points,
                            ..founder
                        },
                    ),
                    contracts.with_contract(
                        contract_address,
                        ContractView { current_points: contract.current_points + points, ..contract },
                    ),
                ),
            )
        },
    }
}

/// Hands a contract's pending rewards to a founder. The founder is looked at
/// first, then the contract, then the pending amount, and last whether the
/// founder's earned rewards and the contract's claimed rewards can hold it.
pub open spec fn claim(
    founders: FounderBook,
    contracts: ContractBook,
    founder_name: Seq<char>,
    contract_address: Seq<char>,
) -> Result<(FounderBook, ContractBook), LedgerError> {
    match founders.acting_founder(founder_name) {
        Err(e) => Err(e),
        Ok(founder) => if !contracts.contracts.contains_key(contract_address) {
            Err(LedgerError::ContractNotFound)
        } else if contracts.contracts[contract_address].pending_rewards == 0 {
            Err(LedgerError::NothingToClaim)
        } else if founder.earned_rewards + contracts.contracts[contract_address].pending_rewards
            > COUNTER_MAX || contracts.contracts[contract_address].claimed_rewards
            + contracts.contracts[contract_address].pending_rewards > COUNTER_MAX {
            Err(LedgerError::CounterOverflow)
        } else {
            let contract = contracts.contracts[contract_address];
            Ok(
                (
                    founders.with_founder(
                        founder_name,
                        FounderView {
                            earned_rewards: founder.earned_rewards + contract.pending_rewards,
                            ..founder
                        },
                    ),
                    contracts.with_contract(
                        contract_address,
                        ContractView {
                            claimed_rewards: contract.claimed_rewards + contract.pending_rewards,
                            pending_rewards: 0,
                            ..contract
                        },
                    ),
                ),
            )
        },
    }
}

} // verus!
