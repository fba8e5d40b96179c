//! The endpoint's registration records and the registration operation.
//!
//! A registry holds at most one record per record address. Registration
//! derives the record address for the calling OApp, confirms that the
//! caller-supplied target slot matches it, creates the record exactly once,
//! charges the funding balance, and writes the OApp's address and its
//! administrator into the record. Every failure leaves the registry and the
//! funding balance exactly as they were.

use vstd::prelude::*;
use crate::address::Address;
use crate::derivation::record_slot_of;

verus! {

/// What a registration record holds, as specifications see it.
pub ghost struct RecordModel {
    /// The address of the registered application; set once, immutable.
    pub oapp_address: Seq<u8>,
    /// The address authorized to administer the OApp's endpoint configuration.
    pub admin: Seq<u8>,
}

/// A registration record: the registered OApp's address and its administrator.
pub struct OAppRegistration {
    /// The address of the registered application.
    pub oapp_address: Address,
    /// The address authorized to administer the OApp's endpoint configuration.
    pub admin: Address,
}

impl View for OAppRegistration {
    type V = RecordModel;

    open spec fn view(&self) -> RecordModel {
        RecordModel { oapp_address: self.oapp_address@, admin: self.admin@ }
    }
}

/// The parameters of a registration request.
pub struct RegisterOAppParams {
    /// The address to install as the administrator of the registering OApp.
    pub delegate: Address,
}

/// Why a registration request was rejected.
#[derive(Clone, Copy, Debug, PartialEq, Eq, Structural)]
pub enum RegisterError {
    /// The supplied target slot is not the address derived for the caller.
    AddressMismatch,
    /// A record already exists at the derived address.
    AlreadyRegistered,
    /// The funding balance cannot pay for allocation of the record.
    InsufficientFunds,
}

/// One stored record together with the slot it occupies.
struct StoredRecord {
    slot: Address,
    record: OAppRegistration,
}

/// The records of a sequence of entries, keyed by their slot addresses.
spec fn entries_map(s: Seq<StoredRecord>) -> Map<Seq<u8>, RecordModel>
    decreases s.len(),
{
    if s.len() == 0 {
        Map::empty()
    } else {
        entries_map(s.drop_last()).insert(s.last().slot@, s.last().record@)
    }
}

/// No two entries occupy the same slot.
spec fn distinct_slots(s: Seq<StoredRecord>) -> bool {
    forall|i: int, j: int| 0 <= i < j < s.len() ==> s[i].slot@ != s[j].slot@
}

proof fn lemma_entries_map_has_slots(s: Seq<StoredRecord>, k: Seq<u8>)
    ensures
        entries_map(s).contains_key(k) <==> exists|i: int| 0 <= i < s.len() && s[i].slot@ == k,
    decreases s.len(),
{
    if s.len() > 0 {
        lemma_entries_map_has_slots(s.drop_last(), k);
        if s.last().slot@ == k {
            assert(s[s.len() - 1].slot@ == k);
        } else {
            if entries_map(s).contains_key(k) {
                let i = choose|i: int| 0 <= i < s.drop_last().len() && s.drop_last()[i].slot@ == k;
                assert(s[i].slot@ == k);
            }
            if exists|i: int| 0 <= i < s.len() && s[i].slot@ == k {
                let i = choose|i: int| 0 <= i < s.len() && s[i].slot@ == k;
                assert(i < s.len() - 1);
                assert(s.drop_last()[i].slot@ == k);
            }
        }
    }
}

proof fn lemma_entries_map_index(s: Seq<StoredRecord>, i: int)
    requires
        distinct_slots(s),
        0 <= i < s.len(),
    ensures
        entries_map(s).contains_key(s[i].slot@),
        entries_map(s)[s[i].slot@] == s[i].record@,
    decreases s.len(),
{
    if i < s.len() - 1 {
        assert(distinct_slots(s.drop_last())) by {
            assert(forall|m: int, n: int|
                0 <= m < n < s.drop_last().len() ==> s.drop_last()[m].slot@ != s.drop_last()[n].slot@);
        }
        lemma_entries_map_index(s.drop_last(), i);
        assert(s.drop_last()[i] == s[i]);
        assert(s[i].slot@ != s.last().slot@);
    }
}

proof fn lemma_entries_map_push(s: Seq<StoredRecord>, e: StoredRecord)
    ensures
        entries_map(s.push(e)) == entries_map(s).insert(e.slot@, e.record@),
{
    assert(s.push(e).drop_last() =~= s);
    assert(s.push(e).last() == e);
}

/// The endpoint's registry of OApp registration records.
///
/// Viewed in specifications as a map from record addresses to records.
pub struct Registry {
    program_id: Address,
    rent_cost: u64,
    entries: Vec<StoredRecord>,
}

impl View for Registry {
    type V = Map<Seq<u8>, RecordModel>;

    closed spec fn view(&self) -> Map<Seq<u8>, RecordModel> {
        entries_map(self.entries@)
    }
}

impl Registry {
    /// A registry is well formed when no two records occupy the same slot.
    pub closed spec fn wf(self) -> bool {
        distinct_slots(self.entries@)
    }

    /// The address of the endpoint program that owns the registry.
    pub closed spec fn spec_program_id(self) -> Seq<u8> {
        self.program_id@
    }

    /// What allocating one fixed-size record charges the funding balance.
    pub closed spec fn spec_rent_cost(self) -> u64 {
        self.rent_cost
    }

    /// An empty registry for the endpoint program at `program_id`, where
    /// allocating one record charges `rent_cost`.
    pub fn new(program_id: Address, rent_cost: u64) -> (r: Registry)
        ensures
            r.wf(),
            r@ == Map::<Seq<u8>, RecordModel>::empty(),
            r.spec_program_id() == program_id@,
            r.spec_rent_cost() == rent_cost,
    {
        Registry { program_id, rent_cost, entries: Vec::new() }
    }

    /// The endpoint program's address.
    pub fn program_id(&self) -> (r: &Address)
        ensures
            r@ == self.spec_program_id(),
    {
        &self.program_id
    }

    /// What allocating one record charges the funding balance.
    pub fn rent_cost(&self) -> (r: u64)
        ensures
            r == self.spec_rent_cost(),
    {
        self.rent_cost
    }

    /// The record stored at `slot`, if one exists.
    pub fn lookup(&self, slot: &Address) -> (r: Option<&OAppRegistration>)
        requires
            self.wf(),
        ensures
            match r {
                Some(record) => self@.contains_key(slot@) && record@ == self@[slot@],
                None => !self@.contains_key(slot@),
            },
    {
        let n = self.entries.len();
        let mut i: usize = 0;
        while i < n
            invariant
                self.wf(),
                n == self.entries@.len(),
                i <= n,
                forall|j: int| 0 <= j < i ==> self.entries@[j].slot@ != slot@,
            decreases n - i,
        {
            if self.entries[i].slot.addr_eq(slot) {
                proof {
                    lemma_entries_map_index(self.entries@, i as int);
                }
                return Some(&self.entries[i].record);
            }
            i = i + 1;
        }
        proof {
            lemma_entries_map_has_slots(self.entries@, slot@);
        }
        None
    }

    /// Registers the calling OApp with the endpoint.
    ///
    /// `caller` is the address of the OApp that actually invokes the
    /// operation, `target` the slot the caller claims is its record address,
    /// and `payer_balance` the funding balance that pays for allocation.
    /// On success the record at the derived address holds the caller's
    /// address and `params.delegate` as administrator, and the balance is
    /// charged the rent cost; on any failure neither the registry nor the
    /// balance changes.
    pub fn register_oapp(
        &mut self,
        caller: &Address,
        params: &RegisterOAppParams,
        target: &Address,
        payer_balance: &mut u64,
    ) -> (r: Result<(), RegisterError>)
        requires
            old(self).wf(),
        ensures
            final(self).wf(),
            final(self).spec_program_id() == old(self).spec_program_id(),
            final(self).spec_rent_cost() == old(self).spec_rent_cost(),
            ({
                let step = spec_register(
                    old(self)@,
                    record_slot_of(caller@, old(self).spec_program_id()),
                    target@,
                    caller@,
                    params.delegate@,
                    *old(payer_balance),
                    old(self).spec_rent_cost(),
                );
                &&& r == step.result
                &&& final(self)@ == step.records
                &&& *final(payer_balance) == step.payer_balance
            }),
    {
        let derived = caller.derive_record_address(&self.program_id);
        let matches_target = match &derived {
            Some(a) => a.addr_eq(target),
            None => false,
        };
        if !matches_target {
            return Err(RegisterError::AddressMismatch);
        }
        let already = match self.lookup(target) {
            Some(_) => true,
            None => false,
        };
        if already {
            return Err(RegisterError::AlreadyRegistered);
        }
        if *payer_balance < self.rent_cost {
            return Err(RegisterError::InsufficientFunds);
        }
        *payer_balance = *payer_balance - self.rent_cost;
        let entry = StoredRecord {
            slot: target.dup(),
            record: OAppRegistration {
                oapp_address: caller.dup(),
                admin: params.delegate.dup(),
            },
        };
        proof {
            lemma_entries_map_has_slots(self.entries@, target@);
            lemma_entries_map_push(self.entries@, entry);
            assert(forall|j: int| 0 <= j < self.entries@.len() ==> self.entries@[j].slot@ != target@);
        }
        self.entries.push(entry);
        Ok(())
    }
}

/// The outcome of one registration attempt: its result, the records
/// afterwards, and the funding balance afterwards.
pub ghost struct RegisterStep {
    /// The operation's outcome.
    pub result: Result<(), RegisterError>,
    /// The registry's records after the attempt.
    pub records: Map<Seq<u8>, RecordModel>,
    /// The funding balance after the attempt.
    pub payer_balance: u64,
}

/// What one registration attempt does: `derived` is the record address
/// derived for the caller, `target` the slot the caller supplied, `balance`
/// the funding balance and `cost` what allocating one record charges.
/// A mismatched target is rejected; a slot that already holds a record is
/// never overwritten; a balance below the cost cannot pay; otherwise the
/// record is created, populated with the caller's address and its delegate,
/// and the balance is charged. Every rejection leaves the records and the
/// balance unchanged.
pub open spec fn spec_register(
    records: Map<Seq<u8>, RecordModel>,
    derived: Option<Seq<u8>>,
    target: Seq<u8>,
    caller: Seq<u8>,
    delegate: Seq<u8>,
    balance: u64,
    cost: u64,
) -> RegisterStep {
    if derived != Some(target) {
        RegisterStep {
            result: Err(RegisterError::AddressMismatch),
            records,
            payer_balance: balance,
        }
    } else if records.contains_key(target) {
        RegisterStep {
            result: Err(RegisterError::AlreadyRegistered),
            records,
            payer_balance: balance,
        }
    } else if balance < cost {
        RegisterStep {
            result: Err(RegisterError::InsufficientFunds),
            records,
            payer_balance: balance,
        }
    } else {
        RegisterStep {
            result: Ok(()),
            records: records.insert(target, RecordModel { oapp_address: caller, admin: delegate }),
            payer_balance: (balance - cost) as u64,
        }
    }
}

} // verus!
