//! The reasons for which the ledger rejects a request.

use vstd::prelude::*;

verus! {

/// Why a ledger operation was rejected. A rejected operation changes nothing.
#[derive(Clone, Copy, Debug, PartialEq, Eq, Structural)]
pub enum LedgerError {
    /// No founder is registered under the given name.
    FounderNotFound,
    /// No contract is registered under the given address.
    ContractNotFound,
    /// A founder with the given name is registered already.
    AlreadyExists,
    /// The founder exists but is not active.
    InactiveFounder,
    /// More points were asked for than the balance holds.
    InsufficientBalance,
    /// The contract has no pending rewards.
    NothingToClaim,
    /// The request is in order, but a counter would pass the largest value
    /// that it can hold.
    CounterOverflow,
}

} // verus!
