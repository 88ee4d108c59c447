//! Pools: their reserves, the trades against them, and their life cycle.

pub mod distribution;
pub mod ed25519;
pub mod event;
pub mod gate;
pub mod ixs;
pub mod round_trip;
pub mod state;

pub use event::{CompleteEvent, CreateEvent, TaxUpdatedEvent, TradeEvent, WithdrawEvent};
pub use state::PoolState;
pub use ed25519::{merge_values, verify_ed25519_ix};
