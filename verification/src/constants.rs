//! Scales and limits shared by all operations.

use vstd::prelude::*;

verus! {

/// Base58 text of the wrapped native mint, which can never be the base asset of a pool.
pub const NATIVE_MINT_2022_STR: &'static str = "9pan9bMn5HatX4EJdBwg9VgCa7Uz5HL8N1m5D3NdXejP";

/// Fee and tax rates are given on a scale where this much is 1%.
pub const FEE_PRE_DIV: u128 = 100;

/// Referral rewards are given on a scale where this much is 1%.
pub const BPS: u64 = 100;

/// The full scale of a fee or tax rate: 100%.
pub const FEE_SCALE: u128 = 100 * FEE_PRE_DIV;

/// The full scale of a referral reward rate: 100%.
pub const REWARD_SCALE: u64 = 100 * BPS;

/// Highest transfer tax a pool may declare: 50%.
pub const MAX_TAX: u64 = 5_000;

/// Highest share of the supply that `max_fee_tokens` may reach: 1%.
pub const MAX_FEE_BPS: u64 = 100;

/// Longest private sale period, in seconds: one day.
pub const MAX_PRIV_SALE_PERIOD: u64 = 86_400;

/// Highest trading fee: 5%.
pub const MAX_TRADING_FEE: u64 = 500;

/// Trading fee of a new configuration: half a percent.
pub const DEF_TRADING_FEE: u64 = 50;

/// Private sale period of a pool that is created without one.
pub const DEF_PRIV_SALE_PERIOD: u64 = 0;

/// Share of the trading fee set aside when a direct referrer exists: 25%.
pub const DEF_TIER1_REWARD: u64 = 2_500;

/// Share of the trading fee for the second tier: 3.5%.
pub const DEF_TIER2_REWARD: u64 = 350;

/// Share of the trading fee for the third tier: 3%.
pub const DEF_TIER3_REWARD: u64 = 300;

/// Reference threshold for forced completion, in the smallest quote unit.
pub const NORMAL_REAL_QUOTE_THRESHOLD: u64 = 82_000_000_000;

/// Where the public key starts in the data of a signature instruction.
pub const PUBKEY_OFFSET: usize = 16;

/// Length of a public key.
pub const PUBKEY_LEN: usize = 32;

/// Length of a signature.
pub const SIG_LEN: usize = 64;

} // verus!
