//! Collection registries.

use vstd::prelude::*;

use crate::address::Address;
use crate::token::{byte_len, MAX_NAME_LEN, MAX_SYMBOL_LEN, MAX_URI_LEN};

verus! {

/// A collection of non-fungible assets, with its supply cap and royalty.
#[derive(Clone, Debug)]
pub struct NftCollection {
    pub authority: Address,
    pub collection_mint: Address,
    pub collection_metadata: Address,
    pub collection_master_edition: Address,
    /// Most items the collection may hold.
    pub total_supply: u32,
    /// Items minted so far.
    pub minted_count: u32,
    pub name: String,
    pub symbol: String,
    /// Base location of the items' metadata.
    pub base_uri: String,
    /// Royalty, in hundredths of a percent.
    pub royalty_basis_points: u16,
    pub royalty_recipient: Address,
    pub bump: u8,
}

impl NftCollection {
    /// Bytes reserved for the persisted record: discriminator, fields in
    /// declared order, strings length-prefixed at their bound.
    pub const LEN: usize = 8 + 32 + 32 + 32 + 32 + 4 + 4 + 4 + 32 + 4 + 10 + 4 + 200 + 2 + 32 + 1;

    /// The invariant of every collection: no more minted than the cap, and
    /// the strings within the bounds reserved for them.
    pub open spec fn wf(&self) -> bool {
        &&& self.minted_count <= self.total_supply
        &&& byte_len(self.name@) <= MAX_NAME_LEN
        &&& byte_len(self.symbol@) <= MAX_SYMBOL_LEN
        &&& byte_len(self.base_uri@) <= MAX_URI_LEN
    }

    /// Size of the record's persisted encoding.
    pub open spec fn encoded_len(&self) -> int {
        8 + 32 + 32 + 32 + 32 + 4 + 4 + (4 + byte_len(self.name@)) + (4 + byte_len(self.symbol@)) + (4
            + byte_len(self.base_uri@)) + 2 + 32 + 1
    }

    /// Every well-formed collection fits in the space reserved for it.
    pub proof fn lemma_encoded_len_fits(&self)
        requires
            self.wf(),
        ensures
            self.encoded_len() <= Self::LEN,
    {
    }
}

} // verus!
