//! The protocol-wide configuration and the operations of its owner.

pub mod event;
pub mod ixs;
pub mod state;

pub use event::{MainStateInitialized, MainStateUpdated, OwnershipTransferred};
pub use state::MainState;
