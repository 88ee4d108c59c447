//! The operations on a pool.

pub mod buy;
pub mod create_pool;
pub mod force_complete;
pub mod sell;
pub mod update_tax;
pub mod withdraw;

pub use buy::{
    buy_exact_tokens_from_sol, buy_finalize, buy_tokens_from_exact_sol, ABuy, BuyQuote, BuySettlement,
};
pub use create_pool::{create_pool, create_pool_for, ACreatePool};
pub use force_complete::{force_complete, AForceComplete};
pub use sell::{sell, sell_funded, ASell, SellQuote, SellSettlement};
pub use update_tax::{update_tax, AUpdateTax};
pub use withdraw::{withdraw, AWithdraw};
