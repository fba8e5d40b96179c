//! Deterministic derivation of the record address that belongs to an OApp.
//!
//! The record address is a pure function of a fixed namespace tag, the OApp's
//! address and the endpoint program's address, so any party can locate an
//! OApp's record without querying storage first.

use vstd::prelude::*;
use crate::address::Address;
use crate::address::ADDRESS_LEN;

verus! {

/// The longest single seed the host derivation accepts.
pub const MAX_SEED_BYTES: usize = 32;

/// The namespace tag under which OApp registration records are derived:
/// the bytes of `"OApp"`.
pub open spec fn oapp_seed_spec() -> Seq<u8> {
    seq![79u8, 65u8, 112u8, 112u8]
}

/// The namespace tag under which OApp registration records are derived.
pub fn oapp_seed() -> (r: Vec<u8>)
    ensures
        r@ == oapp_seed_spec(),
{
    let mut seed: Vec<u8> = Vec::new();
    seed.push(79u8);
    seed.push(65u8);
    seed.push(112u8);
    seed.push(112u8);
    proof {
        assert(seed@ =~= oapp_seed_spec());
    }
    seed
}

/// What the host runtime's address derivation returns for a namespace seed,
/// an OApp address and a program address: `Some` derived address, or `None`
/// in the statistically improbable event that no address can be derived.
/// The result depends on the three arguments alone.
pub uninterp spec fn derive_of(namespace: Seq<u8>, oapp: Seq<u8>, program: Seq<u8>) -> Option<Seq<u8>>;

/// Relies on `Pubkey::try_find_program_address` of anchor_lang's prelude:
/// the derived address is a pure function of the seeds and the program
/// address, is 32 bytes long, and is `None` only in the statistically
/// improbable event that no bump seed is viable.
#[verifier::external_body]
fn find_derived_address(namespace: &Vec<u8>, oapp: &Vec<u8>, program: &Vec<u8>) -> (r: Option<Vec<u8>>)
    requires
        namespace@.len() <= MAX_SEED_BYTES,
        oapp@.len() <= MAX_SEED_BYTES,
        program@.len() == ADDRESS_LEN,
    ensures
        match r {
            Some(a) => derive_of(namespace@, oapp@, program@) == Some(a@) && a@.len() == ADDRESS_LEN,
            None => derive_of(namespace@, oapp@, program@) is None,
        },
{
    let program_id = anchor_lang::prelude::Pubkey::try_from(program.as_slice()).unwrap();
    let seeds: [&[u8]; 2] = [namespace.as_slice(), oapp.as_slice()];
    anchor_lang::prelude::Pubkey::try_find_program_address(&seeds, &program_id)
        .map(|(derived, _bump)| derived.to_bytes().to_vec())
}

/// The record address that belongs to `oapp` under the endpoint program
/// `program`: the derivation of the `"OApp"` namespace tag and the OApp's
/// own address.
pub open spec fn record_slot_of(oapp: Seq<u8>, program: Seq<u8>) -> Option<Seq<u8>> {
    derive_of(oapp_seed_spec(), oapp, program)
}

impl Address {
    /// Derives the registration record address for the OApp at `self` under
    /// the endpoint program at `program`.
    pub fn derive_record_address(&self, program: &Address) -> (r: Option<Address>)
        ensures
            match r {
                Some(a) => record_slot_of(self@, program@) == Some(a@),
                None => record_slot_of(self@, program@) is None,
            },
    {
        proof {
            use_type_invariant(self);
            use_type_invariant(program);
        }
        let namespace = oapp_seed();
        match find_derived_address(&namespace, self.as_bytes(), program.as_bytes()) {
            Some(bytes) => Address::from_bytes(bytes),
            None => None,
        }
    }
}

} // verus!
