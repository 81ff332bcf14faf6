//! What a caller hands to each ledger operation.

use vstd::prelude::*;

verus! {

/// Registers a founder.
#[derive(Debug)]
pub struct FounderCreationRequest {
    /// Name of the founder to create.
    pub founder_name: String,
    /// Points the founder starts with.
    pub allocated_points: u64,
    /// A key to file the founder under in the key index, if any.
    pub api_key: Option<String>,
    /// Whether the founder may act.
    pub is_active: bool,
}

/// Adds points to a founder's allocation.
#[derive(Debug)]
pub struct AllocatePointsRequest {
    /// Name of the founder that receives the points.
    pub founder_address: String,
    /// Points to add.
    pub points: u64,
}

/// Moves points from a founder to a contract.
#[derive(Debug)]
pub struct DistributePointsRequest {
    /// Name of the founder that gives the points.
    pub founder_address: String,
    /// Address of the contract that receives them.
    pub contract_address: String,
    /// Points to move.
    pub points: u64,
}

/// Turns points of a contract into rewards.
#[derive(Debug)]
pub struct ConvertPointsRequest {
    /// Name of the founder on whose behalf the request is made. The
    /// conversion does not look at it.
    pub founder_address: String,
    /// Address of the contract whose points are converted.
    pub contract_address: String,
    /// Points to convert.
    pub points_to_convert: u64,
}

/// Hands a contract's pending rewards to a founder.
#[derive(Debug)]
pub struct ClaimRewardsRequest {
    /// Name of the founder that claims.
    pub founder_address: String,
    /// Address of the contract that holds the rewards.
    pub contract_address: String,
}

/// Registers a contract.
#[derive(Debug)]
pub struct ContractRegistrationRequest {
    /// A display name.
    pub name: String,
    /// Address of the contract to register.
    pub contract_address: String,
    /// Hash of the contract's interface description.
    pub abi_hash: String,
    /// A classification tag.
    pub category: String,
    /// Whether the contract counts as verified.
    pub is_verified: bool,
}

} // verus!
