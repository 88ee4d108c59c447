//! What the operations on the configuration report.

use vstd::prelude::*;
use crate::pubkey::Pubkey;

verus! {

/// The configuration was created.
#[derive(Clone, Copy, Debug, PartialEq, Eq)]
pub struct MainStateInitialized {
    pub owner: Pubkey,
    pub signer: Pubkey,
    pub withdrawer: Pubkey,
    pub trading_fee: u64,
    pub fee_recipient: Pubkey,
}

/// The configuration has a new owner.
#[derive(Clone, Copy, Debug, PartialEq, Eq)]
pub struct OwnershipTransferred {
    pub previous_owner: Pubkey,
    pub new_owner: Pubkey,
}

/// The configuration was changed.
#[derive(Clone, Copy, Debug, PartialEq, Eq)]
pub struct MainStateUpdated {
    pub signer: Pubkey,
    pub withdrawer: Pubkey,
    pub trading_fee: u64,
    pub fee_recipient: Pubkey,
}

} // verus!
