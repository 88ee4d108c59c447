//! What the operations on a pool report.

use vstd::prelude::*;
use crate::pubkey::Pubkey;

verus! {

/// A pool was created.
#[derive(Clone, Debug, PartialEq, Eq)]
pub struct CreateEvent {
    pub creator: Pubkey,
    pub base_mint: Pubkey,
    pub metadata_uri: String,
    pub tax: u64,
    pub max_fee_tokens: u64,
    pub total_supply: u64,
    pub real_quote_threshold: u64,
    /// Both base reserves together, after the creation.
    pub base_reserves: u64,
    /// Both quote reserves together, after the creation.
    pub quote_reserves: u64,
    pub priv_sale_period: u64,
    pub timestamp: i64,
    pub coin_type: u8,
}

/// A trade took place.
#[derive(Clone, Copy, Debug, PartialEq, Eq)]
pub struct TradeEvent {
    pub user: Pubkey,
    pub base_mint: Pubkey,
    /// Quote units paid by the buyer, fee included, or received by the seller.
    pub sol_amount: u64,
    /// Tokens that left the pool, or that reached it.
    pub token_amount: u64,
    /// Both base reserves together, after the trade.
    pub base_reserves: u64,
    /// Both quote reserves together, after the trade.
    pub quote_reserves: u64,
    pub is_buy: bool,
    pub timestamp: i64,
    /// The referrers rewarded, unset where a tier has none, and their rewards.
    pub tier1_referrer: Pubkey,
    pub tier1_reward: u64,
    pub tier2_referrer: Pubkey,
    pub tier2_reward: u64,
    pub tier3_referrer: Pubkey,
    pub tier3_reward: u64,
}

/// The transfer tax of a pool's token was changed.
#[derive(Clone, Copy, Debug, PartialEq, Eq)]
pub struct TaxUpdatedEvent {
    pub owner: Pubkey,
    pub tax: u64,
}

/// A pool completed.
#[derive(Clone, Copy, Debug, PartialEq, Eq)]
pub struct CompleteEvent {
    pub base_mint: Pubkey,
    pub timestamp: i64,
}

/// A completed pool was emptied.
#[derive(Clone, Copy, Debug, PartialEq, Eq)]
pub struct WithdrawEvent {
    pub withdrawer: Pubkey,
    pub base_mint: Pubkey,
    /// Tokens to hand to the withdrawer.
    pub base_amount: u64,
    /// Quote units to hand to the withdrawer.
    pub quote_amount: u64,
    pub timestamp: i64,
}

} // verus!
