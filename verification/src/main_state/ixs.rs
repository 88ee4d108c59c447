//! The operations on the configuration.

pub mod init_main_state;
pub mod transfer_ownership;
pub mod update_main_state;

pub use init_main_state::{init_main_state, AInitMainState};
pub use transfer_ownership::{transfer_ownership, ATransferOwnership};
pub use update_main_state::{update_main_state, AUpdateMainState, UpdateMainStateInput};
