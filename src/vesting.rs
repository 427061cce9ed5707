//! Vesting schedules.

use vstd::prelude::*;

use crate::address::Address;

verus! {

/// A schedule releasing an amount of an asset to a beneficiary over time.
#[derive(Clone, Copy, Debug)]
pub struct VestingSchedule {
    pub beneficiary: Address,
    pub token_mint: Address,
    /// Units vested in all.
    pub total_amount: u64,
    /// When vesting starts, in seconds.
    pub start_time: i64,
    /// Before this time nothing can be claimed.
    pub cliff_time: i64,
    /// Length of the vesting, in seconds.
    pub duration: i64,
    /// Units released so far.
    pub released_amount: u64,
    /// Identity that may revoke the schedule.
    pub authority: Address,
    pub revocable: bool,
    pub bump: u8,
}

impl VestingSchedule {
    /// Bytes reserved for the persisted record, discriminator included.
    pub const LEN: usize = 8 + 32 + 32 + 8 + 8 + 8 + 8 + 8 + 32 + 1 + 1;

    /// The invariant of every schedule: the cliff does not come before the
    /// start, the duration is positive, and no more is released than vests.
    pub open spec fn wf(&self) -> bool {
        &&& self.start_time <= self.cliff_time
        &&& self.duration > 0
        &&& self.released_amount <= self.total_amount
    }
}

} // verus!
