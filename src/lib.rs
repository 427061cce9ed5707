//! Asset control records: validated creation of per-asset administrative
//! records at program-derived addresses, with conditional revocation of the
//! asset's freeze capability, and the data shapes of the sibling record
//! families (staking, vesting, collections).

pub mod address;
pub mod token;
pub mod store;
pub mod instructions;
pub mod staking;
pub mod vesting;
pub mod nft;
