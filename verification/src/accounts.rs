use vstd::prelude::*;
use crate::pubkey::Pubkey;

verus! {

/// The longest company name a persisted schedule record can hold.
pub const MAX_COMPANY_NAME_LEN: usize = 50;

/// Per-company vesting configuration: who administers it, which asset it
/// vests, and where the undistributed reserve sits. Immutable once created.
#[derive(Clone, Debug)]
pub struct VestingAccount {
    /// Identity of the administrator that created the schedule.
    pub owner: Pubkey,
    /// The fungible asset being vested.
    pub mint: Pubkey,
    /// The custody account holding the undistributed reserve.
    pub treasury_token_account: Pubkey,
    /// Unique key of the schedule; also the seed its addresses derive from.
    pub company_name: String,
    /// Derivation salt authorizing the program to sign for the reserve.
    pub treasury_bump: u8,
    /// Derivation salt of the schedule's own address.
    pub bump: u8,
}

impl VestingAccount {
    /// The record respects its persisted layout: the key fits the record.
    pub open spec fn wf(&self) -> bool {
        self.company_name@.len() <= MAX_COMPANY_NAME_LEN
    }
}

/// Per-employee allocation under one schedule. Only `total_withdrawn`
/// ever changes after creation, and only by successful claims.
#[derive(Clone, Copy, PartialEq, Eq, Structural, Debug)]
pub struct EmployeeAccount {
    /// The identity entitled to claim.
    pub beneficiary: Pubkey,
    /// Timestamp at which vesting starts.
    pub start_time: i64,
    /// Timestamp at which the allocation is fully vested.
    pub end_time: i64,
    /// Timestamp before which nothing is claimable.
    pub cliff_time: i64,
    /// Address of the owning schedule.
    pub vesting_account: Pubkey,
    /// Tokens allocated over the whole vesting period.
    pub total_amount: i64,
    /// Cumulative tokens already transferred to the beneficiary.
    pub total_withdrawn: i64,
    /// Derivation salt of the grant's address.
    pub bump: u8,
}

impl EmployeeAccount {
    /// Conservation: what was recorded as withdrawn was covered by the
    /// allocation. Nothing is ever withdrawn from a grant whose recorded
    /// allocation is negative (such a grant never has a positive claimable
    /// amount), so its counter stays at zero.
    pub open spec fn wf(&self) -> bool {
        &&& 0 <= self.total_withdrawn
        &&& self.total_amount >= 0 ==> self.total_withdrawn <= self.total_amount
        &&& self.total_amount < 0 ==> self.total_withdrawn == 0
    }
}

} // verus!
