//! The founder record.

use vstd::prelude::*;
use crate::model::FounderView;

verus! {

/// An account that holds an allocation of points, pushes part of it to
/// contracts, and collects the rewards claimed back from them.
#[derive(Debug)]
pub struct Founder {
    /// Addresses of the contracts associated with the founder. No ledger
    /// operation reads or fills this list.
    pub contracts: Vec<String>,
    /// Points ever allocated to the founder.
    pub allocated_points: u64,
    /// Points the founder has pushed to contracts so far.
    pub distributed_points: u64,
    /// Rewards claimed back from contracts so far.
    pub earned_rewards: u64,
    /// A key shown with the record; nothing checks it.
    pub api_key: Option<String>,
    /// Whether the founder may allocate, distribute and claim.
    pub is_active: bool,
    /// The founder's name, which is its key in the registry.
    pub founder_name: String,
}

/// The character sequences that a list of strings stands for.
pub open spec fn string_views(strings: Seq<String>) -> Seq<Seq<char>> {
    strings.map_values(|s: String| s@)
}

/// The character sequence that an optional string stands for, if any.
pub open spec fn option_string_view(string: Option<String>) -> Option<Seq<char>> {
    match string {
        Some(s) => Some(s@),
        None => None,
    }
}

impl View for Founder {
    type V = FounderView;

    open spec fn view(&self) -> FounderView {
        FounderView {
            founder_name: self.founder_name@,
            allocated_points: self.allocated_points as int,
            distributed_points: self.distributed_points as int,
            earned_rewards: self.earned_rewards as int,
            is_active: self.is_active,
            api_key: option_string_view(self.api_key),
            contracts: string_views(self.contracts@),
        }
    }
}

/// A copy of an optional string.
pub(crate) fn copy_option_string(string: &Option<String>) -> (copy: Option<String>)
    ensures
        copy == *string,
{
    match string {
        Some(s) => Some(s.clone()),
        None => None,
    }
}

/// A copy of a list of strings, in the same order.
pub(crate) fn copy_strings(strings: &Vec<String>) -> (copy: Vec<String>)
    ensures
        copy@ == strings@,
{
    let mut copy: Vec<String> = Vec::new();
    let mut i: usize = 0;
    while i < strings.len()
        invariant
            i <= strings.len(),
            copy@ == strings@.take(i as int),
        decreases strings.len() - i,
    {
        copy.push(strings[i].clone());
        assert(copy@ == strings@.take(i + 1));
        i += 1;
    }
    assert(strings@.take(strings.len() as int) == strings@);
    copy
}

impl Clone for Founder {
    /// A copy that stands for the same record.
    fn clone(&self) -> (copy: Founder)
        ensures
            copy@ == self@,
    {
        Founder {
            contracts: copy_strings(&self.contracts),
            allocated_points: self.allocated_points,
            distributed_points: self.distributed_points,
            earned_rewards: self.earned_rewards,
            api_key: copy_option_string(&self.api_key),
            is_active: self.is_active,
            founder_name: self.founder_name.clone(),
        }
    }
}

} // verus!
