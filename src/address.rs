//! Identities and program-derived addresses.
//!
//! A program-derived address is computed from a list of seeds and the owning
//! program's identity; it has no private key. The owning program proves
//! control of it by presenting the same seeds plus the bump byte found during
//! derivation.

use vstd::prelude::*;

use anchor_lang::solana_program::pubkey::Pubkey;

verus! {

/// A 32-byte ledger identity (an account or program key).
#[derive(Clone, Copy, Debug)]
pub struct Address {
    pub bytes: [u8; 32],
}

impl PartialEq for Address {
    fn eq(&self, o: &Address) -> (r: bool) {
        let mut i: usize = 0;
        while i < 32
            invariant
                0 <= i <= 32,
                self.bytes@.len() == 32,
                o.bytes@.len() == 32,
                forall|j: int| 0 <= j < i ==> self.bytes@[j] == o.bytes@[j],
            decreases 32 - i,
        {
            if self.bytes[i] != o.bytes[i] {
                return false;
            }
            i = i + 1;
        }
        assert(self.bytes@ =~= o.bytes@);
        true
    }
}

impl vstd::std_specs::cmp::PartialEqSpecImpl for Address {
    open spec fn obeys_eq_spec() -> bool {
        true
    }

    open spec fn eq_spec(&self, o: &Address) -> bool {
        self.bytes@ == o.bytes@
    }
}

impl Eq for Address {
}

impl Address {
    pub open spec fn view(&self) -> Seq<u8> {
        self.bytes@
    }

    pub fn new(bytes: [u8; 32]) -> (r: Address)
        ensures
            r.bytes == bytes,
    {
        Address { bytes }
    }
}

/// What `Pubkey::try_find_program_address` returns for the given seeds and
/// program identity: the address and its bump, or nothing.
pub uninterp spec fn found_program_address(seeds: Seq<Seq<u8>>, program_id: Seq<u8>) -> Option<(Seq<u8>, u8)>;

/// What `Pubkey::create_program_address` returns for the given seeds and
/// program identity: the address, or nothing where it refuses the seeds.
pub uninterp spec fn created_program_address(seeds: Seq<Seq<u8>>, program_id: Seq<u8>) -> Option<Seq<u8>>;

/// The two seeds of a derivation: a fixed tag naming the record kind, then the
/// stable identity the record belongs to.
pub open spec fn derivation_seeds(tag: Seq<u8>, key: Seq<u8>) -> Seq<Seq<u8>> {
    seq![tag, key]
}

/// The seeds with which the owning program signs as a derived address.
pub open spec fn signer_seeds(tag: Seq<u8>, key: Seq<u8>, bump: u8) -> Seq<Seq<u8>> {
    seq![tag, key, seq![bump]]
}

/// The derived address of `(tag, key)` under `program_id`, with its bump.
pub open spec fn derived_address(tag: Seq<u8>, key: Seq<u8>, program_id: Seq<u8>) -> Option<(Seq<u8>, u8)> {
    found_program_address(derivation_seeds(tag, key), program_id)
}

pub open spec fn address_pair_view(r: Option<(Address, u8)>) -> Option<(Seq<u8>, u8)> {
    match r {
        Some((a, b)) => Some((a@, b)),
        None => None,
    }
}

/// Relies on `Pubkey::try_find_program_address`: off-chain it searches the
/// bump bytes from 255 down and returns the first one for which
/// `Pubkey::create_program_address` accepts the seeds with the bump appended,
/// together with that address; it returns `None` where no bump is accepted.
#[verifier::external_body]
fn try_find_program_address(tag: &[u8], key: &Address, program_id: &Address) -> (r: Option<(Address, u8)>)
    ensures
        address_pair_view(r) == found_program_address(derivation_seeds(tag@, key@), program_id@),
        r matches Some((a, b)) ==> created_program_address(signer_seeds(tag@, key@, b), program_id@)
            == Some(a@),
{
    let program = Pubkey::new_from_array(program_id.bytes);
    Pubkey::try_find_program_address(&[tag, &key.bytes], &program).map(
        |(a, b)| (Address { bytes: a.to_bytes() }, b),
    )
}

/// Relies on `Pubkey::create_program_address`: the address that the seeds and
/// program identity give, or `None` where it returns an error.
#[verifier::external_body]
fn create_program_address(tag: &[u8], key: &Address, bump: u8, program_id: &Address) -> (r: Option<Address>)
    ensures
        r matches Some(a) ==> created_program_address(signer_seeds(tag@, key@, bump), program_id@)
            == Some(a@),
        r is None ==> created_program_address(signer_seeds(tag@, key@, bump), program_id@) is None,
{
    let program = Pubkey::new_from_array(program_id.bytes);
    Pubkey::create_program_address(&[tag, &key.bytes, &[bump]], &program).ok().map(
        |a| Address { bytes: a.to_bytes() },
    )
}

/// Derives the address at which the record of kind `tag` for `key` lives
/// under `program_id`, with the bump that proves control of it.
pub fn derive_address(tag: &[u8], key: &Address, program_id: &Address) -> (r: Option<(Address, u8)>)
    ensures
        address_pair_view(r) == derived_address(tag@, key@, program_id@),
        r matches Some((a, b)) ==> created_program_address(signer_seeds(tag@, key@, b), program_id@)
            == Some(a@),
{
    try_find_program_address(tag, key, program_id)
}

/// Whether presenting `(tag, key, bump)` proves control of `address` under
/// `program_id`.
pub fn proves_control(tag: &[u8], key: &Address, bump: u8, program_id: &Address, address: &Address) -> (r: bool)
    ensures
        r == (created_program_address(signer_seeds(tag@, key@, bump), program_id@) == Some(address@)),
{
    match create_program_address(tag, key, bump, program_id) {
        Some(a) => a == *address,
        None => false,
    }
}

/// Derivation is a function of its inputs: the same tag, key and program give
/// the same address and the same bump.
pub proof fn lemma_derivation_deterministic(
    tag1: Seq<u8>,
    key1: Seq<u8>,
    program1: Seq<u8>,
    tag2: Seq<u8>,
    key2: Seq<u8>,
    program2: Seq<u8>,
)
    requires
        tag1 == tag2,
        key1 == key2,
        program1 == program2,
    ensures
        derived_address(tag1, key1, program1) == derived_address(tag2, key2, program2),
{
}

} // verus!
