//! What the operations on referral records report.

use vstd::prelude::*;
use crate::pubkey::Pubkey;

verus! {

/// A user registered.
#[derive(Clone, Copy, Debug, PartialEq, Eq)]
pub struct UserRegisteredEvent {
    /// Who registered.
    pub referree: Pubkey,
    /// The direct referrer on record. Unset where there is none.
    pub referrer: Pubkey,
    /// When, in seconds.
    pub timestamp: i64,
}

/// A user claimed the rewards earned.
#[derive(Clone, Copy, Debug, PartialEq, Eq)]
pub struct RewardsClaimEvent {
    /// Who claimed.
    pub user: Pubkey,
    /// How much is to be paid out.
    pub rewards: u64,
    /// When, in seconds.
    pub timestamp: i64,
}

} // verus!
