//! Linear token vesting with a cliff.
//!
//! A company locks a reserve of a fungible token and vests it linearly to
//! employees between two timestamps; nothing is claimable before a cliff.
//! The crate holds the verified core: the vesting arithmetic, the per-company
//! schedule and per-employee grant records, and the keyed ledger that creates
//! those records and processes claims. Moving the tokens themselves is the
//! job of an external custody service: a successful claim returns the
//! transfer order that the caller must execute and commit atomically with
//! the updated ledger state.

pub mod accounts;
pub mod error;
pub mod ledger;
pub mod pubkey;
pub mod vesting_math;

pub use error::ErrorCode;
pub use pubkey::Pubkey;
