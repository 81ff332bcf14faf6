//! The texts with which a request is answered.

use vstd::prelude::*;
use crate::error::LedgerError;

verus! {

/// The requests that the ledger serves.
#[derive(Clone, Copy, Debug, PartialEq, Eq, Structural)]
pub enum Operation {
    /// Register a founder.
    CreateFounder,
    /// Add points to a founder's allocation.
    AllocatePoints,
    /// Move points from a founder to a contract.
    DistributePoints,
    /// Turn points of a contract into rewards.
    ConvertPoints,
    /// Hand a contract's pending rewards to a founder.
    ClaimRewards,
    /// Read a founder's record.
    GetFounder,
}

/// The text that confirms an accepted request. A lookup is answered with the
/// record itself and has no such text.
pub open spec fn confirmation_text(operation: Operation) -> Option<Seq<char>> {
    match operation {
        Operation::CreateFounder => Some("Founder created successfully."@),
        Operation::AllocatePoints => Some("Points allocated successfully."@),
        Operation::DistributePoints => Some("Points distributed successfully."@),
        Operation::ConvertPoints => Some("Points converted to rewards successfully."@),
        Operation::ClaimRewards => Some("Rewards claimed successfully."@),
        Operation::GetFounder => None,
    }
}

/// The text that tells the caller why a request was rejected. A missing
/// contract and a balance that is too small are worded by the operation that
/// met them.
pub open spec fn rejection_text(operation: Operation, error: LedgerError) -> Seq<char> {
    match error {
        LedgerError::FounderNotFound => "Founder not found."@,
        LedgerError::ContractNotFound => if operation == Operation::DistributePoints {
            "Contract not registered."@
        } else {
            "Contract not found."@
        },
        LedgerError::AlreadyExists => "Founder already exists."@,
        LedgerError::InactiveFounder => "Founder is not active."@,
        LedgerError::InsufficientBalance => if operation == Operation::ConvertPoints {
            "Insufficient points to convert."@
        } else {
            "Insufficient allocated points."@
        },
        LedgerError::NothingToClaim => "No rewards to claim."@,
        LedgerError::CounterOverflow => "Counter overflow."@,
    }
}

/// The text that confirms `operation`, if it has one.
pub fn confirmation(operation: Operation) -> (text: Option<&'static str>)
    ensures
        match confirmation_text(operation) {
            Some(expected) => text matches Some(t) && t@ == expected,
            None => text is None,
        },
{
    match operation {
        Operation::CreateFounder => Some("Founder created successfully."),
        Operation::AllocatePoints => Some("Points allocated successfully."),
        Operation::DistributePoints => Some("Points distributed successfully."),
        Operation::ConvertPoints => Some("Points converted to rewards successfully."),
        Operation::ClaimRewards => Some("Rewards claimed successfully."),
        Operation::GetFounder => None,
    }
}

/// The text that tells why `operation` was rejected with `error`.
pub fn rejection(operation: Operation, error: LedgerError) -> (text: &'static str)
    ensures
        text@ == rejection_text(operation, error),
{
    match error {
        LedgerError::FounderNotFound => "Founder not found.",
        LedgerError::ContractNotFound => match operation {
            Operation::DistributePoints => "Contract not registered.",
            _ => "Contract not found.",
        },
        LedgerError::AlreadyExists => "Founder already exists.",
        LedgerError::InactiveFounder => "Founder is not active.",
        LedgerError::InsufficientBalance => match operation {
            Operation::ConvertPoints => "Insufficient points to convert.",
            _ => "Insufficient allocated points.",
        },
        LedgerError::NothingToClaim => "No rewards to claim.",
        LedgerError::CounterOverflow => "Counter overflow.",
    }
}

} // verus!
