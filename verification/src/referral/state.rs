//! The referral record of one user.

use vstd::prelude::*;
use crate::error::MaxiFarmError;
use crate::pubkey::Pubkey;

verus! {

/// What is kept for a user: the direct referrer, if one was ever given, and
/// the rewards earned from the trades of those the user referred.
#[derive(Clone, Copy, Debug, PartialEq, Eq)]
pub struct ReferralState {
    /// Whose record this is. Unset in a record that nobody has claimed yet.
    pub user: Pubkey,
    /// Rewards earned and not yet claimed.
    pub earned_rewards: u64,
    /// The direct referrer. Unset where the user has none.
    pub referrer: Pubkey,
}

impl ReferralState {
    /// A record that holds nothing yet.
    pub open spec fn spec_empty() -> ReferralState {
        ReferralState { user: Pubkey::unset(), earned_rewards: 0, referrer: Pubkey::unset() }
    }

    /// A record that holds nothing yet.
    #[verifier::when_used_as_spec(spec_empty)]
    pub fn empty() -> (record: ReferralState)
        ensures
            record == ReferralState::spec_empty(),
    {
        ReferralState { user: Pubkey::default(), earned_rewards: 0, referrer: Pubkey::default() }
    }

    /// Whether the user has a direct referrer.
    pub fn has_referrer(&self) -> (r: bool)
        ensures
            r == (self.referrer != Pubkey::unset()),
    {
        !self.referrer.is_unset()
    }

    /// The record with `reward` more earned.
    pub open spec fn credited(self, reward: u64) -> ReferralState {
        ReferralState { earned_rewards: (self.earned_rewards + reward) as u64, ..self }
    }

    /// Adds `reward` to what the user has earned. Fails, and changes
    /// nothing, where the sum exceeds 64 bits.
    pub fn credit(&mut self, reward: u64) -> (res: Result<(), MaxiFarmError>)
        ensures
            old(self).earned_rewards + reward <= u64::MAX ==> res is Ok && *final(self) == old(self).credited(reward),
            old(self).earned_rewards + reward > u64::MAX ==> res == Err::<(), MaxiFarmError>(
                MaxiFarmError::ArithmeticError,
            ) && *final(self) == *old(self),
    {
        match self.earned_rewards.checked_add(reward) {
            Some(sum) => {
                self.earned_rewards = sum;
                Ok(())
            },
            None => Err(MaxiFarmError::ArithmeticError),
        }
    }
}

} // verus!
