//! What holds of the ledger whatever requests it is given.
//!
//! The statements are about the mathematical ledger. The executable
//! operations are specified to compute exactly its transitions, so each
//! statement carries over to them.

use vstd::prelude::*;
use crate::book::{claim, distribute, ContractBook, FounderBook};
use crate::error::LedgerError;
use crate::model::{rewards_for, ContractView, FounderView, COUNTER_MAX};

verus! {

/// In a well-formed registry no founder has distributed more than it was
/// allocated.
pub proof fn distributed_within_allocated(founders: FounderBook, name: Seq<char>)
    requires
        founders.wf(),
        founders.founders.contains_key(name),
    ensures
        founders.founders[name].distributed_points <= founders.founders[name].allocated_points,
{
}

/// In a well-formed registry no counter of a founder is negative.
pub proof fn founder_counters_not_negative(founders: FounderBook, name: Seq<char>)
    requires
        founders.wf(),
        founders.founders.contains_key(name),
    ensures
        0 <= founders.founders[name].allocated_points,
        0 <= founders.founders[name].distributed_points,
        0 <= founders.founders[name].earned_rewards,
{
}

/// In a well-formed registry no counter of a contract is negative.
pub proof fn contract_counters_not_negative(contracts: ContractBook, address: Seq<char>)
    requires
        contracts.wf(),
        contracts.contracts.contains_key(address),
    ensures
        0 <= contracts.contracts[address].current_points,
        0 <= contracts.contracts[address].pending_rewards,
        0 <= contracts.contracts[address].claimed_rewards,
{
}

/// The empty registries are well formed.
pub proof fn empty_is_well_formed()
    ensures
        FounderBook::empty().wf(),
        ContractBook::empty().wf(),
{
}

/// Registering a founder keeps the founder registry well formed.
pub proof fn create_founder_keeps_well_formed(
    founders: FounderBook,
    name: Seq<char>,
    allocated_points: int,
    api_key: Option<Seq<char>>,
    is_active: bool,
)
    requires
        founders.wf(),
        0 <= allocated_points <= COUNTER_MAX,
    ensures
        founders.create_founder(name, allocated_points, api_key, is_active) matches Ok(next)
            ==> next.wf(),
{
}

/// Seeding the default founder keeps the founder registry well formed.
pub proof fn default_founder_keeps_well_formed(founders: FounderBook)
    requires
        founders.wf(),
    ensures
        founders.seed_default_founder().wf(),
{
}

/// Seeding never touches a founder that is registered: where `founder1`
/// exists, seeding changes nothing, so seeding twice is seeding once.
pub proof fn seeding_leaves_registered_founder(founders: FounderBook)
    ensures
        founders.founders.contains_key("founder1"@) ==> founders.seed_default_founder()
            == founders,
        founders.seed_default_founder().seed_default_founder()
            == founders.seed_default_founder(),
        !founders.founders.contains_key("founder1"@)
            ==> founders.seed_default_founder().founders["founder1"@]
            == FounderBook::default_founder(),
{
}

/// Allocating points keeps the founder registry well formed.
pub proof fn allocate_keeps_well_formed(founders: FounderBook, name: Seq<char>, points: int)
    requires
        founders.wf(),
        0 <= points,
    ensures
        founders.allocate(name, points) matches Ok(next) ==> next.wf(),
{
}

/// Registering a contract keeps the contract registry well formed.
pub proof fn register_keeps_well_formed(contracts: ContractBook, contract: ContractView)
    requires
        contracts.wf(),
        contract.wf(),
    ensures
        contracts.register(contract) matches Ok(next) ==> next.wf(),
{
}

/// Whatever is asked for, after a distribution no founder has distributed
/// more than it was allocated. Where the request is accepted, the founder's
/// distributed points grow by exactly the points asked for, its allocation
/// stays, and every other founder's record stays.
pub proof fn distribution_stays_within_allocation(
    founders: FounderBook,
    contracts: ContractBook,
    founder_name: Seq<char>,
    contract_address: Seq<char>,
    points: int,
)
    requires
        founders.wf(),
        0 <= points,
    ensures
        match distribute(founders, contracts, founder_name, contract_address, points) {
            Ok(next) => {
                &&& next.0.founders.dom() == founders.founders.dom()
                &&& next.0.founders[founder_name].distributed_points
                    == founders.founders[founder_name].distributed_points + points
                &&& next.0.founders[founder_name].allocated_points
                    == founders.founders[founder_name].allocated_points
                &&& forall|other: Seq<char>|
                    other != founder_name && #[trigger] founders.founders.contains_key(other)
                        ==> next.0.founders[other] == founders.founders[other]
                &&& forall|name: Seq<char>| #[trigger]
                    next.0.founders.contains_key(name) ==> next.0.founders[name].distributed_points
                        <= next.0.founders[name].allocated_points
            },
            Err(_) => forall|name: Seq<char>| #[trigger]
                founders.founders.contains_key(name) ==> founders.founders[name].distributed_points
                    <= founders.founders[name].allocated_points,
        },
{
    if distribute(founders, contracts, founder_name, contract_address, points) is Ok {
        let next = distribute(founders, contracts, founder_name, contract_address, points)->Ok_0;
        assert(next.0.founders.dom() =~= founders.founders.dom());
    }
}

/// Distributing points keeps both registries well formed.
pub proof fn distribute_keeps_well_formed(
    founders: FounderBook,
    contracts: ContractBook,
    founder_name: Seq<char>,
    contract_address: Seq<char>,
    points: int,
)
    requires
        founders.wf(),
        contracts.wf(),
        0 <= points,
    ensures
        distribute(founders, contracts, founder_name, contract_address, points) matches Ok(next)
            ==> next.0.wf() && next.1.wf(),
{
}

/// Converting points keeps the contract registry well formed: a request for
/// more than the balance holds is rejected, and the balance never goes
/// below zero.
pub proof fn convert_keeps_well_formed(contracts: ContractBook, address: Seq<char>, points: int)
    requires
        contracts.wf(),
        0 <= points,
    ensures
        contracts.convert(address, points) matches Ok(next) ==> next.wf(),
{
}

/// Claiming rewards keeps both registries well formed.
pub proof fn claim_keeps_well_formed(
    founders: FounderBook,
    contracts: ContractBook,
    founder_name: Seq<char>,
    contract_address: Seq<char>,
)
    requires
        founders.wf(),
        contracts.wf(),
    ensures
        claim(founders, contracts, founder_name, contract_address) matches Ok(next)
            ==> next.0.wf() && next.1.wf(),
{
}

/// Once a founder has been registered, registering the same name again is
/// rejected, whatever the second request holds. A rejected request has no
/// next state, so the first founder's record stays as it was.
pub proof fn second_registration_rejected(
    founders: FounderBook,
    name: Seq<char>,
    first_points: int,
    first_key: Option<Seq<char>>,
    first_active: bool,
    second_points: int,
    second_key: Option<Seq<char>>,
    second_active: bool,
)
    requires
        founders.create_founder(name, first_points, first_key, first_active) is Ok,
    ensures
        founders.create_founder(name, first_points, first_key, first_active)->Ok_0.create_founder(
            name,
            second_points,
            second_key,
            second_active,
        ) == Err::<FounderBook, LedgerError>(LedgerError::AlreadyExists),
        founders.create_founder(
            name,
            first_points,
            first_key,
            first_active,
        )->Ok_0.founders[name] == FounderView::fresh(name, first_points, first_key, first_active),
{
}

/// Converting `points` takes all of them out of the balance and adds one
/// reward for every full hundred: nothing of the remainder stays behind.
/// This is for a conversion whose rewards the pending counter can hold.
pub proof fn conversion_truncates(contracts: ContractBook, address: Seq<char>, points: int)
    requires
        contracts.contracts.contains_key(address),
        0 <= points <= contracts.contracts[address].current_points,
        contracts.contracts[address].pending_rewards + rewards_for(points) <= COUNTER_MAX,
    ensures
        contracts.convert(address, points) matches Ok(next) && {
            &&& next.contracts[address].current_points
                == contracts.contracts[address].current_points - points
            &&& next.contracts[address].pending_rewards
                == contracts.contracts[address].pending_rewards + rewards_for(points)
            &&& 100 * rewards_for(points) <= points < 100 * rewards_for(points) + 100
        },
{
}

/// A request to distribute more than the founder has left is rejected for
/// the balance, whether or not the contract is registered.
pub proof fn balance_checked_before_contract(
    founders: FounderBook,
    contracts: ContractBook,
    founder_name: Seq<char>,
    contract_address: Seq<char>,
    points: int,
)
    requires
        founders.acting_founder(founder_name) is Ok,
        points > founders.founders[founder_name].available_points(),
    ensures
        distribute(founders, contracts, founder_name, contract_address, points) == Err::<
            (FounderBook, ContractBook),
            LedgerError,
        >(LedgerError::InsufficientBalance),
{
}

/// Distributing exactly what a founder has left is accepted and leaves
/// nothing, where the contract's balance can hold it; one point more is
/// rejected with `InsufficientBalance`.
pub proof fn whole_balance_can_be_distributed(
    founders: FounderBook,
    contracts: ContractBook,
    founder_name: Seq<char>,
    contract_address: Seq<char>,
)
    requires
        founders.acting_founder(founder_name) is Ok,
        contracts.contracts.contains_key(contract_address),
        contracts.contracts[contract_address].current_points
            + founders.founders[founder_name].available_points() <= COUNTER_MAX,
    ensures
        ({
            let available = founders.founders[founder_name].available_points();
            &&& distribute(founders, contracts, founder_name, contract_address, available)
                matches Ok(next)
            &&& next.0.founders[founder_name].available_points() == 0
            &&& next.1.contracts[contract_address].current_points
                == contracts.contracts[contract_address].current_points + available
            &&& distribute(founders, contracts, founder_name, contract_address, available + 1)
                == Err::<(FounderBook, ContractBook), LedgerError>(
                LedgerError::InsufficientBalance,
            )
        }),
{
}

/// A request is rejected with `CounterOverflow` exactly where every other
/// test passes and a counter would go past `COUNTER_MAX`.
pub proof fn overflow_rejected_exactly_past_the_limit(
    founders: FounderBook,
    contracts: ContractBook,
    founder_name: Seq<char>,
    contract_address: Seq<char>,
    points: int,
)
    ensures
        founders.allocate(founder_name, points) == Err::<FounderBook, LedgerError>(
            LedgerError::CounterOverflow,
        ) <==> founders.acting_founder(founder_name) is Ok
            && founders.founders[founder_name].allocated_points + points > COUNTER_MAX,
        distribute(founders, contracts, founder_name, contract_address, points) == Err::<
            (FounderBook, ContractBook),
            LedgerError,
        >(LedgerError::CounterOverflow) <==> {
            &&& founders.acting_founder(founder_name) is Ok
            &&& points <= founders.founders[founder_name].available_points()
            &&& contracts.contracts.contains_key(contract_address)
            &&& contracts.contracts[contract_address].current_points + points > COUNTER_MAX
        },
        contracts.convert(contract_address, points) == Err::<ContractBook, LedgerError>(
            LedgerError::CounterOverflow,
        ) <==> {
            &&& contracts.contracts.contains_key(contract_address)
            &&& points <= contracts.contracts[contract_address].current_points
            &&& contracts.contracts[contract_address].pending_rewards + rewards_for(points)
                > COUNTER_MAX
        },
        claim(founders, contracts, founder_name, contract_address) == Err::<
            (FounderBook, ContractBook),
            LedgerError,
        >(LedgerError::CounterOverflow) <==> {
            &&& founders.acting_founder(founder_name) is Ok
            &&& contracts.contracts.contains_key(contract_address)
            &&& contracts.contracts[contract_address].pending_rewards != 0
            &&& {
                ||| founders.founders[founder_name].earned_rewards
                    + contracts.contracts[contract_address].pending_rewards > COUNTER_MAX
                ||| contracts.contracts[contract_address].claimed_rewards
                    + contracts.contracts[contract_address].pending_rewards > COUNTER_MAX
            }
        },
{
}

/// The registry after `times` allocations of `points` each to one founder,
/// made one after another.
pub open spec fn allocate_repeatedly(
    founders: FounderBook,
    name: Seq<char>,
    points: int,
    times: nat,
) -> Result<FounderBook, LedgerError>
    decreases times,
{
    if times == 0 {
        Ok(founders)
    } else {
        match founders.allocate(name, points) {
            Ok(next) => allocate_repeatedly(next, name, points, (times - 1) as nat),
            Err(e) => Err(e),
        }
    }
}

/// `times` allocations of `points` each to one active founder raise its
/// allocation by exactly `times * points` and change nothing else: no update
/// is lost. This is for allocations whose sum the counter can hold. An
/// operation holds its registry exclusively, so calls made by several
/// callers at once still take effect one after another, and all orders of
/// equal allocations are this one.
pub proof fn repeated_allocations_add_up(
    founders: FounderBook,
    name: Seq<char>,
    points: int,
    times: nat,
)
    requires
        founders.acting_founder(name) is Ok,
        0 <= points,
        founders.founders[name].allocated_points + times * points <= COUNTER_MAX,
    ensures
        allocate_repeatedly(founders, name, points, times) matches Ok(last) && last
            == founders.with_founder(
            name,
            FounderView {
                allocated_points: founders.founders[name].allocated_points + times * points,
                ..founders.founders[name]
            },
        ),
    decreases times,
{
    if times == 0 {
        assert(founders.founders =~= founders.founders.insert(name, founders.founders[name]));
    } else {
        let allocated = founders.founders[name].allocated_points;
        assert(allocated + points + (times - 1) * points == allocated + times * points)
            by (nonlinear_arith);
        assert(0 <= (times - 1) * points) by (nonlinear_arith)
            requires
                0 <= points,
                times >= 1,
        ;
        let next = founders.allocate(name, points)->Ok_0;
        repeated_allocations_add_up(next, name, points, (times - 1) as nat);
        let last = allocate_repeatedly(next, name, points, (times - 1) as nat)->Ok_0;
        assert(last.founders =~= founders.founders.insert(
            name,
            FounderView { allocated_points: allocated + times * points, ..founders.founders[name] },
        ));
    }
}

} // verus!
