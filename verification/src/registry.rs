//! The two keyed stores that hold the ledger's records.
//!
//! A registry owns its records: callers get copies out and change records
//! only through the ledger's operations, so whatever holds of a registry
//! after one operation still holds before the next.

use vstd::prelude::*;
use vstd::hash_map::StringHashMap;
use vstd::hash_set::StringHashSet;
use crate::book::{ContractBook, FounderBook};
use crate::contract::ContractInfo;
use crate::founder::Founder;

verus! {

/// The founders by name, with the API-key index and the active set.
pub struct FounderRegistry {
    founders: StringHashMap<Founder>,
    api_key_to_founder: StringHashMap<String>,
    active_founders: StringHashSet,
}

/// The contracts by address.
pub struct ContractRegistry {
    registered_contracts: StringHashMap<ContractInfo>,
}

impl View for FounderRegistry {
    type V = FounderBook;

    closed spec fn view(&self) -> FounderBook {
        FounderBook {
            founders: self.founders@.map_values(|f: Founder| f@),
            api_key_to_founder: self.api_key_to_founder@.map_values(|name: String| name@),
            active_founders: self.active_founders@,
        }
    }
}

impl View for ContractRegistry {
    type V = ContractBook;

    closed spec fn view(&self) -> ContractBook {
        ContractBook { contracts: self.registered_contracts@.map_values(|c: ContractInfo| c@) }
    }
}

impl FounderRegistry {
    /// Whether the registry is in a state that the ledger's operations can
    /// have left it in.
    pub open spec fn wf(&self) -> bool {
        self@.wf()
    }

    /// A registry without founders.
    pub fn new() -> (registry: FounderRegistry)
        ensures
            registry@ == FounderBook::empty(),
            registry.wf(),
    {
        let registry = FounderRegistry {
            founders: StringHashMap::new(),
            api_key_to_founder: StringHashMap::new(),
            active_founders: StringHashSet::new(),
        };
        assert(registry@.founders =~= Map::empty());
        assert(registry@.api_key_to_founder =~= Map::empty());
        registry
    }

    /// The name of the founder that the key index holds for `api_key`: the
    /// founder that was last registered with that key.
    pub fn founder_for_api_key(&self, api_key: &str) -> (name: Option<String>)
        ensures
            match name {
                Some(name) => self@.api_key_to_founder.contains_key(api_key@) && name@
                    == self@.api_key_to_founder[api_key@],
                None => !self@.api_key_to_founder.contains_key(api_key@),
            },
    {
        match self.api_key_to_founder.get(api_key) {
            Some(name) => Some(name.clone()),
            None => None,
        }
    }

    /// Whether `name` is in the active set.
    pub fn is_active_founder(&self, name: &str) -> (active: bool)
        ensures
            active == self@.active_founders.contains(name@),
    {
        self.active_founders.contains(name)
    }

    /// The record filed under `name`, if there is one.
    pub(crate) fn find(&self, name: &str) -> (found: Option<&Founder>)
        ensures
            match found {
                Some(founder) => self@.founders.contains_key(name@) && founder@
                    == self@.founders[name@],
                None => !self@.founders.contains_key(name@),
            },
    {
        self.founders.get(name)
    }

    /// Files `founder` under its name in place of the record that is there.
    pub(crate) fn replace(&mut self, founder: Founder)
        ensures
            final(self)@ == old(self)@.with_founder(founder@.founder_name, founder@),
    {
        let ghost record = founder@;
        let name = founder.founder_name.clone();
        self.founders.insert(name, founder);
        assert(self@.founders =~= old(self)@.founders.insert(record.founder_name, record));
    }

    /// Files `founder` under its name, records its key in the key index if
    /// it has one, and its name in the active set if it is active.
    pub(crate) fn enroll(&mut self, founder: Founder)
        ensures
            final(self)@ == old(self)@.enroll(founder@),
    {
        let ghost record = founder@;
        match &founder.api_key {
            Some(key) => {
                self.api_key_to_founder.insert(key.clone(), founder.founder_name.clone());
            },
            None => {},
        }
        if founder.is_active {
            self.active_founders.insert(founder.founder_name.clone());
        }
        let name = founder.founder_name.clone();
        self.founders.insert(name, founder);
        assert(self@.founders =~= old(self)@.founders.insert(record.founder_name, record));
        assert(self@.api_key_to_founder =~= old(self)@.enroll(record).api_key_to_founder);
    }
}

impl ContractRegistry {
    /// Whether the registry is in a state that the ledger's operations can
    /// have left it in.
    pub open spec fn wf(&self) -> bool {
        self@.wf()
    }

    /// A registry without contracts.
    pub fn new() -> (registry: ContractRegistry)
        ensures
            registry@ == ContractBook::empty(),
            registry.wf(),
    {
        let registry = ContractRegistry { registered_contracts: StringHashMap::new() };
        assert(registry@.contracts =~= Map::empty());
        registry
    }

    /// The record filed under `address`, if there is one.
    pub(crate) fn find(&self, address: &str) -> (found: Option<&ContractInfo>)
        ensures
            match found {
                Some(contract) => self@.contracts.contains_key(address@) && contract@
                    == self@.contracts[address@],
                None => !self@.contracts.contains_key(address@),
            },
    {
        self.registered_contracts.get(address)
    }

    /// Files `contract` under its address, in place of a record that may be
    /// there.
    pub(crate) fn replace(&mut self, contract: ContractInfo)
        ensures
            final(self)@ == old(self)@.with_contract(contract@.contract_address, contract@),
    {
        let ghost record = contract@;
        let address = contract.contract_address.clone();
        self.registered_contracts.insert(address, contract);
        assert(self@.contracts =~= old(self)@.contracts.insert(record.contract_address, record));
    }
}

} // verus!
