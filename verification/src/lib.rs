//! A bonding-curve exchange: constant-product pricing against virtual and
//! real reserves, a trading fee that is shared with up to three tiers of
//! referrers, a signature-gated private sale, and the life of a pool from
//! its creation to the withdrawal of what it has collected.
//!
//! Every operation takes the records it touches, says what they become and
//! what has to be moved and reported, and leaves every record as it was
//! where it fails. Moving balances, keeping the records and reading the
//! clock are the caller's part.

pub mod constants;
pub mod error;
pub mod ledger;
pub mod main_state;
pub mod math;
pub mod pool;
pub mod pubkey;
pub mod referral;
pub mod utils;

pub use error::{ErrorKind, MaxiFarmError};
pub use ledger::{Instruction, Mint, TokenAccount};
pub use main_state::ixs::{
    init_main_state, transfer_ownership, update_main_state, AInitMainState, ATransferOwnership,
    AUpdateMainState, UpdateMainStateInput,
};
pub use main_state::{MainState, MainStateInitialized, MainStateUpdated, OwnershipTransferred};
pub use pool::ixs::{
    buy_exact_tokens_from_sol, buy_tokens_from_exact_sol, create_pool, force_complete, sell,
    update_tax, withdraw, ABuy, ACreatePool, AForceComplete, ASell, AUpdateTax, AWithdraw,
    BuySettlement, SellSettlement,
};
pub use pool::{
    merge_values, verify_ed25519_ix, CompleteEvent, CreateEvent, PoolState, TaxUpdatedEvent,
    TradeEvent, WithdrawEvent,
};
pub use pubkey::Pubkey;
pub use referral::ixs::{claim_rewards, register_user, AClaimRewards, ARegisterUser};
pub use referral::{ReferralState, RewardsClaimEvent, UserRegisteredEvent};
pub use utils::{
    calculate_fee, calculate_total_amount, check_balance, check_received, sync_native_amount,
    transfer_lamports,
};
