//! What an operation reads of the records that the ledger keeps for others:
//! a token account, a mint, and an instruction of the running transaction.

use vstd::prelude::*;
use crate::pubkey::Pubkey;

verus! {

/// A holder's balance of one token.
#[derive(Clone, Copy, Debug, PartialEq, Eq)]
pub struct TokenAccount {
    /// The token held.
    pub mint: Pubkey,
    /// The balance.
    pub amount: u64,
}

/// A token.
#[derive(Clone, Copy, Debug, PartialEq, Eq)]
pub struct Mint {
    /// The address of the token.
    pub address: Pubkey,
    /// How much of it exists.
    pub supply: u64,
    /// Who may create more, if anyone.
    pub mint_authority: Option<Pubkey>,
    /// Who may freeze balances, if anyone.
    pub freeze_authority: Option<Pubkey>,
}

/// One instruction of the running transaction.
#[derive(Clone, Debug, PartialEq, Eq)]
pub struct Instruction {
    /// The program the instruction is addressed to.
    pub program_id: Pubkey,
    /// How many accounts it names.
    pub num_accounts: usize,
    /// Its data.
    pub data: Vec<u8>,
}

} // verus!
