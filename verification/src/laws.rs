//! The guarantees the registry gives, stated and proved over the same
//! specifications that the executable operations promise in their contracts.

use vstd::prelude::*;
use crate::derivation::record_slot_of;
use crate::registry::RecordModel;
use crate::registry::RegisterError;
use crate::registry::spec_register;

verus! {

/// Determinism: deriving the record address of one OApp under one program
/// always gives the same answer. Any two results that the derivation
/// contract admits for the same inputs are equal.
pub proof fn lemma_derivation_deterministic(
    oapp: Seq<u8>,
    program: Seq<u8>,
    first: Option<Seq<u8>>,
    second: Option<Seq<u8>>,
)
    requires
        first == record_slot_of(oapp, program),
        second == record_slot_of(oapp, program),
    ensures
        first == second,
{
}

/// Uniqueness: once a registration for an OApp has succeeded, a second
/// attempt for the same OApp always fails with `AlreadyRegistered`, leaves
/// every record unchanged, and in particular leaves the original
/// administrator in place, whatever delegate or balance the second attempt
/// brings.
pub proof fn lemma_second_registration_rejected(
    records: Map<Seq<u8>, RecordModel>,
    program: Seq<u8>,
    target: Seq<u8>,
    caller: Seq<u8>,
    first_delegate: Seq<u8>,
    second_delegate: Seq<u8>,
    first_balance: u64,
    second_balance: u64,
    cost: u64,
)
    requires
        spec_register(records, record_slot_of(caller, program), target, caller, first_delegate,
            first_balance, cost).result is Ok,
    ensures
        ({
            let first = spec_register(records, record_slot_of(caller, program), target, caller,
                first_delegate, first_balance, cost);
            let second = spec_register(first.records, record_slot_of(caller, program), target,
                caller, second_delegate, second_balance, cost);
            &&& second.result == Err::<(), RegisterError>(RegisterError::AlreadyRegistered)
            &&& second.records == first.records
            &&& second.records[target] == (RecordModel {
                oapp_address: caller,
                admin: first_delegate,
            })
            &&& second.payer_balance == second_balance
        }),
{
}

/// Correct population: a successful registration creates the record at the
/// derived address, writes the caller's address and the delegate into it,
/// and charges the funding balance exactly the rent cost.
pub proof fn lemma_successful_registration_populates(
    records: Map<Seq<u8>, RecordModel>,
    derived: Option<Seq<u8>>,
    target: Seq<u8>,
    caller: Seq<u8>,
    delegate: Seq<u8>,
    balance: u64,
    cost: u64,
)
    requires
        spec_register(records, derived, target, caller, delegate, balance, cost).result is Ok,
    ensures
        ({
            let step = spec_register(records, derived, target, caller, delegate, balance, cost);
            &&& derived == Some(target)
            &&& !records.contains_key(target)
            &&& step.records.contains_key(target)
            &&& step.records[target] == (RecordModel { oapp_address: caller, admin: delegate })
            &&& step.records == records.insert(target, RecordModel {
                oapp_address: caller,
                admin: delegate,
            })
            &&& step.payer_balance == balance - cost
        }),
{
}

/// Address binding: a caller whose supplied target slot is not the address
/// derived for the caller itself is rejected with `AddressMismatch`, so no
/// caller can register a record for any OApp address but its own.
pub proof fn lemma_address_binding(
    records: Map<Seq<u8>, RecordModel>,
    derived: Option<Seq<u8>>,
    target: Seq<u8>,
    caller: Seq<u8>,
    delegate: Seq<u8>,
    balance: u64,
    cost: u64,
)
    requires
        derived != Some(target),
    ensures
        ({
            let step = spec_register(records, derived, target, caller, delegate, balance, cost);
            &&& step.result == Err::<(), RegisterError>(RegisterError::AddressMismatch)
            &&& step.records == records
            &&& step.payer_balance == balance
        }),
{
}

/// Atomicity: a registration that fails for any reason changes nothing — no
/// record appears at the target address, no existing record changes, and the
/// funding balance is not charged.
pub proof fn lemma_failure_is_atomic(
    records: Map<Seq<u8>, RecordModel>,
    derived: Option<Seq<u8>>,
    target: Seq<u8>,
    caller: Seq<u8>,
    delegate: Seq<u8>,
    balance: u64,
    cost: u64,
)
    requires
        spec_register(records, derived, target, caller, delegate, balance, cost).result is Err,
    ensures
        ({
            let step = spec_register(records, derived, target, caller, delegate, balance, cost);
            &&& step.records == records
            &&& step.payer_balance == balance
            &&& !records.contains_key(target) ==> !step.records.contains_key(target)
        }),
{
}

/// Independence: registrations for two OApps whose derived record addresses
/// differ both succeed, produce two correctly populated records that do not
/// disturb one another, and commute — performing them in either order leaves
/// the registry with the same records.
///
/// The requirement that the two derived addresses differ excludes the
/// statistically improbable collision of the derivation on two distinct
/// OApp addresses.
pub proof fn lemma_independent_registrations(
    records: Map<Seq<u8>, RecordModel>,
    program: Seq<u8>,
    first_oapp: Seq<u8>,
    second_oapp: Seq<u8>,
    first_target: Seq<u8>,
    second_target: Seq<u8>,
    first_delegate: Seq<u8>,
    second_delegate: Seq<u8>,
    first_balance: u64,
    second_balance: u64,
    cost: u64,
)
    requires
        first_oapp != second_oapp,
        record_slot_of(first_oapp, program) == Some(first_target),
        record_slot_of(second_oapp, program) == Some(second_target),
        first_target != second_target,
        !records.contains_key(first_target),
        !records.contains_key(second_target),
        first_balance >= cost,
        second_balance >= cost,
    ensures
        ({
            let first = spec_register(records, record_slot_of(first_oapp, program), first_target,
                first_oapp, first_delegate, first_balance, cost);
            let second = spec_register(first.records, record_slot_of(second_oapp, program),
                second_target, second_oapp, second_delegate, second_balance, cost);
            &&& first.result is Ok
            &&& second.result is Ok
            &&& second.records[first_target] == (RecordModel {
                oapp_address: first_oapp,
                admin: first_delegate,
            })
            &&& second.records[second_target] == (RecordModel {
                oapp_address: second_oapp,
                admin: second_delegate,
            })
        }),
        ({
            let one_then_two = spec_register(
                spec_register(records, record_slot_of(first_oapp, program), first_target,
                    first_oapp, first_delegate, first_balance, cost).records,
                record_slot_of(second_oapp, program), second_target, second_oapp,
                second_delegate, second_balance, cost).records;
            let two_then_one = spec_register(
                spec_register(records, record_slot_of(second_oapp, program), second_target,
                    second_oapp, second_delegate, second_balance, cost).records,
                record_slot_of(first_oapp, program), first_target, first_oapp, first_delegate,
                first_balance, cost).records;
            one_then_two == two_then_one
        }),
{
    let one_then_two = spec_register(
        spec_register(records, record_slot_of(first_oapp, program), first_target, first_oapp,
            first_delegate, first_balance, cost).records,
        record_slot_of(second_oapp, program), second_target, second_oapp, second_delegate,
        second_balance, cost).records;
    let two_then_one = spec_register(
        spec_register(records, record_slot_of(second_oapp, program), second_target, second_oapp,
            second_delegate, second_balance, cost).records,
        record_slot_of(first_oapp, program), first_target, first_oapp, first_delegate,
        first_balance, cost).records;
    assert(one_then_two =~= two_then_one);
}

} // verus!
