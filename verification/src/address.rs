//! Account addresses and the canonical derivation of record addresses.

use vstd::prelude::*;
use vstd::bytes::{spec_u64_to_le_bytes, u64_to_le_bytes};
use vstd::string::StringSliceAdditionalSpecFns;
use anchor_lang::prelude::Pubkey;
use crate::constants::{ASSET_SEED, BET_SEED, GROUP_ASSET_SEED};

verus! {

/// A 32-byte account address.
#[derive(Clone, Copy, Debug)]
pub struct Address {
    pub bytes: [u8; 32],
}

impl View for Address {
    type V = Seq<u8>;

    open spec fn view(&self) -> Seq<u8> {
        self.bytes@
    }
}

impl PartialEq for Address {
    fn eq(&self, other: &Address) -> (r: bool) {
        let mut i: usize = 0;
        while i < 32
            invariant
                i <= 32,
                forall|k: int| 0 <= k < i ==> self.bytes[k] == other.bytes[k],
            decreases 32 - i,
        {
            if self.bytes[i] != other.bytes[i] {
                return false;
            }
            i += 1;
        }
        proof {
            assert(self.bytes =~= other.bytes);
        }
        true
    }
}

impl Eq for Address {}

impl vstd::std_specs::cmp::PartialEqSpecImpl for Address {
    open spec fn obeys_eq_spec() -> bool {
        true
    }

    open spec fn eq_spec(&self, other: &Address) -> bool {
        *self == *other
    }
}

impl Address {
    /// The address made of the given bytes.
    pub fn new(bytes: [u8; 32]) -> (a: Address)
        ensures
            a.bytes == bytes,
    {
        Address { bytes }
    }

    /// Two addresses are the same exactly when their bytes are.
    pub proof fn lemma_view_injective(a: Address, b: Address)
        ensures
            (a@ == b@) <==> (a == b),
    {
        if a@ == b@ {
            assert(a.bytes =~= b.bytes);
        }
    }
}

/// What `Pubkey::try_find_program_address` returns for the given seeds and
/// program: the derived address with its bump seed, or `None` when no bump
/// seed yields an address.
pub uninterp spec fn program_address(seeds: Seq<Seq<u8>>, program_id: Seq<u8>) -> Option<(Seq<u8>, u8)>;

/// The canonical address of the record of kind `tag` numbered `id` under
/// `parent`, as owned by `program_id`.
pub open spec fn record_address(tag: Seq<u8>, parent: Address, id: u64, program_id: Address) -> Option<Seq<u8>> {
    match program_address(seq![tag, parent@, spec_u64_to_le_bytes(id)], program_id@) {
        Some((address, _)) => Some(address),
        None => None,
    }
}

/// The canonical address of bet `id` of the round at `round`.
pub open spec fn spec_bet_address(round: Address, id: u64, program_id: Address) -> Option<Seq<u8>> {
    record_address(BET_SEED.spec_bytes(), round, id, program_id)
}

/// The canonical address of group `id` of the round at `round`.
pub open spec fn spec_group_asset_address(round: Address, id: u64, program_id: Address) -> Option<Seq<u8>> {
    record_address(GROUP_ASSET_SEED.spec_bytes(), round, id, program_id)
}

/// The canonical address of asset `id` of the group at `group`.
pub open spec fn spec_asset_address(group: Address, id: u64, program_id: Address) -> Option<Seq<u8>> {
    record_address(ASSET_SEED.spec_bytes(), group, id, program_id)
}

/// Calls `Pubkey::try_find_program_address` on the three seeds `tag`,
/// `parent` and `index`. The contract only names the result: the derivation
/// hashes the seeds and searches a bump seed, and nothing is claimed of it
/// but that it is a function of the seeds and the program.
#[verifier::external_body]
fn find_program_address(tag: &[u8], parent: &Address, index: &[u8], program_id: &Address) -> (r: Option<(Address, u8)>)
    ensures
        match r {
            Some((address, bump)) => program_address(seq![tag@, parent@, index@], program_id@) == Some((address@, bump)),
            None => program_address(seq![tag@, parent@, index@], program_id@) is None,
        },
{
    let program = Pubkey::new_from_array(program_id.bytes);
    match Pubkey::try_find_program_address(&[tag, &parent.bytes, index], &program) {
        Some((key, bump)) => Some((Address { bytes: key.to_bytes() }, bump)),
        None => None,
    }
}

/// Derives the canonical address of the record of kind `tag` numbered `id`
/// under `parent`.
pub fn derive_record_address(tag: &str, parent: &Address, id: u64, program_id: &Address) -> (r: Option<Address>)
    ensures
        match r {
            Some(address) => record_address(tag.spec_bytes(), *parent, id, *program_id) == Some(address@),
            None => record_address(tag.spec_bytes(), *parent, id, *program_id) is None,
        },
{
    let index = u64_to_le_bytes(id);
    match find_program_address(tag.as_bytes(), parent, index.as_slice(), program_id) {
        Some((address, _)) => Some(address),
        None => None,
    }
}

/// Whether `candidate` is the canonical address that `expected` holds.
pub fn matches_expected(candidate: &Address, expected: &Option<Address>) -> (r: bool)
    ensures
        r == (*expected == Some(*candidate)),
{
    match expected {
        Some(address) => *candidate == *address,
        None => false,
    }
}

/// Derives the canonical address of bet `id` of the round at `round`.
pub fn bet_address(round: &Address, id: u64, program_id: &Address) -> (r: Option<Address>)
    ensures
        match r {
            Some(address) => spec_bet_address(*round, id, *program_id) == Some(address@),
            None => spec_bet_address(*round, id, *program_id) is None,
        },
{
    derive_record_address(BET_SEED, round, id, program_id)
}

/// Derives the canonical address of group `id` of the round at `round`.
pub fn group_asset_address(round: &Address, id: u64, program_id: &Address) -> (r: Option<Address>)
    ensures
        match r {
            Some(address) => spec_group_asset_address(*round, id, *program_id) == Some(address@),
            None => spec_group_asset_address(*round, id, *program_id) is None,
        },
{
    derive_record_address(GROUP_ASSET_SEED, round, id, program_id)
}

/// Derives the canonical address of asset `id` of the group at `group`.
pub fn asset_address(group: &Address, id: u64, program_id: &Address) -> (r: Option<Address>)
    ensures
        match r {
            Some(address) => spec_asset_address(*group, id, *program_id) == Some(address@),
            None => spec_asset_address(*group, id, *program_id) is None,
        },
{
    derive_record_address(ASSET_SEED, group, id, program_id)
}

} // verus!
