//! The protocol-wide configuration.

use vstd::prelude::*;
use crate::constants::{MAX_TRADING_FEE, REWARD_SCALE};
use crate::pubkey::Pubkey;

verus! {

/// The configuration that every operation reads: who may administer, who
/// attests private sale access, who may withdraw, and how the trading fee is
/// set and shared.
#[derive(Clone, Copy, Debug, PartialEq, Eq)]
pub struct MainState {
    /// Who may change this configuration.
    pub owner: Pubkey,
    /// Whose signature opens the private sale.
    pub signer: Pubkey,
    /// Who may withdraw from a completed pool.
    pub withdrawer: Pubkey,
    /// Trading fee, on the fee scale.
    pub trading_fee: u64,
    /// Who receives the protocol's part of the trading fee.
    pub fee_recipient: Pubkey,
    /// Part of the trading fee shared with referrers, on the reward scale.
    pub tier1_reward: u64,
    /// Part of the trading fee for the second tier, on the reward scale.
    pub tier2_reward: u64,
    /// Part of the trading fee for the third tier, on the reward scale.
    pub tier3_reward: u64,
}

impl MainState {
    /// The fee is within its limit, and the part shared with referrers is at
    /// most the whole fee and covers what the second and third tier receive.
    pub open spec fn wf(self) -> bool {
        &&& self.trading_fee <= MAX_TRADING_FEE
        &&& self.tier1_reward <= REWARD_SCALE
        &&& self.tier2_reward + self.tier3_reward <= self.tier1_reward
    }

    /// Whether the configuration is well formed.
    pub fn is_valid(&self) -> (r: bool)
        ensures
            r == self.wf(),
    {
        self.trading_fee <= MAX_TRADING_FEE && self.tier1_reward <= REWARD_SCALE
            && self.tier2_reward <= self.tier1_reward && self.tier3_reward <= self.tier1_reward
            - self.tier2_reward
    }
}

} // verus!
